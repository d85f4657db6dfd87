use crate::syntax::SyntaxNode;
use vstd::prelude::*;

verus! {

/// `tree_sitter::Node`: a node of a syntax tree, as the parser hands it out. Nothing of
/// it is seen here but through the calls below.
#[verifier::external_type_specification]
#[verifier::external_body]
pub struct ExTreeNode<'a>(tree_sitter::Node<'a>);

/// `tree_sitter::Node::kind`: the grammar's name for the node's kind, which the call
/// takes to be UTF-8, as the grammars write it. It is left open which name comes back.
pub assume_specification<'a>[ tree_sitter::Node::<'a>::kind ](
    node: &tree_sitter::Node<'a>,
) -> &'static str
;

/// `tree_sitter::Node::is_named`: whether the node's kind is a named rule of the grammar.
/// It is left open which answer comes back.
pub assume_specification<'a>[ tree_sitter::Node::<'a>::is_named ](
    node: &tree_sitter::Node<'a>,
) -> bool
;

/// `tree_sitter::Node::start_byte`: the offset at which the node starts. It is left open
/// which offset comes back.
pub assume_specification<'a>[ tree_sitter::Node::<'a>::start_byte ](
    node: &tree_sitter::Node<'a>,
) -> usize
;

/// `tree_sitter::Node::end_byte`: the offset at which the node ends. It is left open which
/// offset comes back.
pub assume_specification<'a>[ tree_sitter::Node::<'a>::end_byte ](
    node: &tree_sitter::Node<'a>,
) -> usize
;

/// `tree_sitter::Node::child_by_field_name`: the first child in the slot labelled `field`,
/// where the node has one. It is left open which child comes back, and whether one does.
#[verifier::external_body]
fn child_by_field_name<'a>(node: &tree_sitter::Node<'a>, field: &str) -> Option<
    tree_sitter::Node<'a>,
> {
    node.child_by_field_name(field)
}

impl SyntaxNode<'static> {
    /// Reads from a node of a syntax tree what classification needs: the name of its
    /// kind, whether the kind is a named rule, and where the child in its `name` slot
    /// lies. The tree is the parser's: what is read is as good as the tree.
    pub fn read(node: &tree_sitter::Node) -> SyntaxNode<'static> {
        let slot = match child_by_field_name(node, "name") {
            Some(child) => Some((child.start_byte(), child.end_byte())),
            None => None,
        };
        SyntaxNode::new(node.kind(), node.is_named(), slot)
    }
}

} // verus!
