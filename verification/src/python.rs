use crate::getter::Getter;
use crate::kind::NodeKind;
use crate::langs::PythonCode;
use crate::syntax::SyntaxNode;
use crate::text::same_text;
use vstd::prelude::*;

verus! {

/// The table of Python: what a node is whose kind has the given name, as a named rule
/// of the grammar or as a literal token.
pub open spec fn python_kind(kind: Seq<char>, named: bool) -> NodeKind {
    if !named {
        NodeKind::Unknown
    } else if kind == "function_definition"@ {
        NodeKind::Function
    } else if kind == "class_definition"@ {
        NodeKind::Class
    } else if kind == "module"@ {
        NodeKind::Unit
    } else {
        NodeKind::Unknown
    }
}

/// Every kind has one place in the table. A named kind is a function exactly when
/// it is a function definition, a class exactly when it is a class definition, the unit
/// exactly when it is the module; a literal token is none of them.
pub proof fn lemma_python_kind_rows(kind: Seq<char>, named: bool)
    ensures
        python_kind(kind, named) == NodeKind::Function <==> named && kind
            == "function_definition"@,
        python_kind(kind, named) == NodeKind::Class <==> named && kind == "class_definition"@,
        python_kind(kind, named) == NodeKind::Unit <==> named && kind == "module"@,
{
    reveal_strlit("function_definition");
    assert("function_definition"@.len() == 19);
    reveal_strlit("class_definition");
    assert("class_definition"@.len() == 16);
    reveal_strlit("module");
    assert("module"@.len() == 6);
}

impl Getter for PythonCode {
    fn get_kind(node: &SyntaxNode) -> (kind: NodeKind)
        ensures
            kind == python_kind(node@.kind, node@.named),
    {
        let typ = node.kind;
        if !node.named {
            NodeKind::Unknown
        } else if same_text(typ, "function_definition") {
            NodeKind::Function
        } else if same_text(typ, "class_definition") {
            NodeKind::Class
        } else if same_text(typ, "module") {
            NodeKind::Unit
        } else {
            NodeKind::Unknown
        }
    }
}

} // verus!
