use crate::kind::NodeKind;
use crate::syntax::SyntaxNode;
use crate::text::decode;
use vstd::prelude::*;
use vstd::slice::slice_subrange;
use vstd::utf8::{decode_utf8, encode_utf8, valid_utf8};

verus! {

/// The name given to a node that has no name slot.
pub const ANONYMOUS: &'static str = "<anonymous>";

/// What a grammar answers about one node: its name and its kind.
///
/// The name is read in the same way under every grammar. A node without a name slot is a
/// nameless function or class, and gets the placeholder; a name slot whose bytes are no
/// text is a failure, and gives no name at all.
///
/// The kind comes from the grammar's table. A grammar brings its own where it has one;
/// without one it keeps the table given here, which knows no kind.
///
/// A node has to be asked about under the grammar that parsed it, with the buffer that
/// it was parsed from: `SyntaxNode::fits_in` tells whether a buffer can be that one.
pub trait Getter {
    /// The name of a function: the same as `get_func_space_name`.
    fn get_func_name<'a>(node: &SyntaxNode, code: &'a [u8]) -> (name: Option<&'a str>)
        requires
            node@.fits(code@),
        ensures
            node@.name is None ==> (name matches Some(text) && text@ == ANONYMOUS@),
            node@.name is Some && valid_utf8(node@.name_bytes(code@)) ==> (name matches Some(text)
                && text@ == decode_utf8(node@.name_bytes(code@)) && encode_utf8(text@)
                == node@.name_bytes(code@)),
            node@.name is Some && !valid_utf8(node@.name_bytes(code@)) ==> name is None,
    {
        Self::get_func_space_name(node, code)
    }

    /// The name of a function or of a class: the text that the node's name slot spans in
    /// `code`, byte for byte.
    fn get_func_space_name<'a>(node: &SyntaxNode, code: &'a [u8]) -> (name: Option<&'a str>)
        requires
            node@.fits(code@),
        ensures
            node@.name is None ==> (name matches Some(text) && text@ == ANONYMOUS@),
            node@.name is Some && valid_utf8(node@.name_bytes(code@)) ==> (name matches Some(text)
                && text@ == decode_utf8(node@.name_bytes(code@)) && encode_utf8(text@)
                == node@.name_bytes(code@)),
            node@.name is Some && !valid_utf8(node@.name_bytes(code@)) ==> name is None,
    {
        match node.name {
            Some(span) => decode(slice_subrange(code, span.start, span.end)),
            None => Some(ANONYMOUS),
        }
    }

    /// The kind of a node: what the grammar's table holds for the node's own kind, and
    /// for nothing else of the node.
    fn get_kind(node: &SyntaxNode) -> (kind: NodeKind)
        default_ensures
            kind == NodeKind::Unknown,
    {
        NodeKind::Unknown
    }
}

} // verus!
