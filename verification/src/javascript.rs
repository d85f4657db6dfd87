use crate::getter::Getter;
use crate::kind::NodeKind;
use crate::langs::JavascriptCode;
use crate::syntax::SyntaxNode;
use crate::text::same_text;
use vstd::prelude::*;

verus! {

/// The table of JavaScript: what a node is whose kind has the given name, as a
/// named rule of the grammar or as a literal token.
pub open spec fn javascript_kind(kind: Seq<char>, named: bool) -> NodeKind {
    if !named {
        NodeKind::Unknown
    } else if kind == "function"@ || kind == "generator_function"@ || kind
        == "function_declaration"@ || kind == "generator_function_declaration"@ {
        NodeKind::Function
    } else if kind == "class"@ || kind == "class_declaration"@ {
        NodeKind::Class
    } else if kind == "program"@ {
        NodeKind::Unit
    } else {
        NodeKind::Unknown
    }
}

/// Every kind has one place in the table. A named kind is a function exactly when it
/// carries one of the four function names, a class exactly when it carries one of the two
/// class names, the unit exactly when it is the program; a literal token is none of them.
pub proof fn lemma_javascript_kind_rows(kind: Seq<char>, named: bool)
    ensures
        javascript_kind(kind, named) == NodeKind::Function <==> named && (kind == "function"@
            || kind == "generator_function"@ || kind == "function_declaration"@ || kind
            == "generator_function_declaration"@),
        javascript_kind(kind, named) == NodeKind::Class <==> named && (kind == "class"@ || kind
            == "class_declaration"@),
        javascript_kind(kind, named) == NodeKind::Unit <==> named && kind == "program"@,
{
    reveal_strlit("function");
    assert("function"@.len() == 8);
    reveal_strlit("generator_function");
    assert("generator_function"@.len() == 18);
    reveal_strlit("function_declaration");
    assert("function_declaration"@.len() == 20);
    reveal_strlit("generator_function_declaration");
    assert("generator_function_declaration"@.len() == 30);
    reveal_strlit("class");
    assert("class"@.len() == 5);
    reveal_strlit("class_declaration");
    assert("class_declaration"@.len() == 17);
    reveal_strlit("program");
    assert("program"@.len() == 7);
}

impl Getter for JavascriptCode {
    fn get_kind(node: &SyntaxNode) -> (kind: NodeKind)
        ensures
            kind == javascript_kind(node@.kind, node@.named),
    {
        let typ = node.kind;
        if !node.named {
            NodeKind::Unknown
        } else if same_text(typ, "function") || same_text(typ, "generator_function") || same_text(
            typ,
            "function_declaration",
        ) || same_text(typ, "generator_function_declaration") {
            NodeKind::Function
        } else if same_text(typ, "class") || same_text(typ, "class_declaration") {
            NodeKind::Class
        } else if same_text(typ, "program") {
            NodeKind::Unit
        } else {
            NodeKind::Unknown
        }
    }
}

} // verus!
