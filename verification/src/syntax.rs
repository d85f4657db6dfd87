use vstd::prelude::*;

verus! {

/// A byte range `[start, end)` of a source buffer.
#[derive(Clone, Copy, Debug, PartialEq, Eq, Structural)]
pub struct Span {
    pub start: usize,
    pub end: usize,
}

impl View for Span {
    type V = (int, int);

    open spec fn view(&self) -> (int, int) {
        (self.start as int, self.end as int)
    }
}

/// What classification reads of a syntax node: the kind that its grammar gives it, and
/// where its name stands in the source.
///
/// A grammar identifies a kind by its name together with whether it is a named rule:
/// `function` as a rule is a function expression, `function` as a literal is the keyword.
#[derive(Clone, Copy, Debug)]
pub struct SyntaxNode<'a> {
    /// The grammar's name for the node's kind.
    pub kind: &'a str,
    /// Whether the kind is a named rule of the grammar rather than a literal token.
    pub named: bool,
    /// The range of the child in the slot labelled `name`, where the node has one.
    pub name: Option<Span>,
}

/// A node as the contracts see it.
pub struct NodeModel {
    pub kind: Seq<char>,
    pub named: bool,
    pub name: Option<(int, int)>,
}

impl<'a> View for SyntaxNode<'a> {
    type V = NodeModel;

    open spec fn view(&self) -> NodeModel {
        NodeModel {
            kind: self.kind@,
            named: self.named,
            name: match self.name {
                Some(span) => Some(span@),
                None => None,
            },
        }
    }
}

impl NodeModel {
    /// The node's name slot, where it has one, is a range of `code`. This holds of a node
    /// and the buffer it was parsed from.
    pub open spec fn fits(self, code: Seq<u8>) -> bool {
        self.name matches Some((start, end)) ==> 0 <= start <= end <= code.len()
    }

    /// The bytes of `code` that the name slot spans; none where there is no slot.
    pub open spec fn name_bytes(self, code: Seq<u8>) -> Seq<u8>
        recommends
            self.fits(code),
    {
        match self.name {
            Some((start, end)) => code.subrange(start, end),
            None => Seq::empty(),
        }
    }
}

impl<'a> SyntaxNode<'a> {
    /// The node of the kind called `kind`, a named rule or a literal token as `named`
    /// says, whose name slot, where `slot` holds one, runs from the first offset to the
    /// second.
    pub fn new(kind: &'a str, named: bool, slot: Option<(usize, usize)>) -> (node: SyntaxNode<'a>)
        ensures
            node.kind@ == kind@,
            node.named == named,
            node.name == match slot {
                Some((start, end)) => Some(Span { start, end }),
                None => None,
            },
            node@ == (NodeModel {
                kind: kind@,
                named,
                name: match slot {
                    Some((start, end)) => Some((start as int, end as int)),
                    None => None,
                },
            }),
    {
        let name = match slot {
            Some((start, end)) => Some(Span { start, end }),
            None => None,
        };
        SyntaxNode { kind, named, name }
    }

    /// Tells whether the node's name slot, where it has one, is a range of `code`.
    pub fn fits_in(&self, code: &[u8]) -> (fits: bool)
        ensures
            fits == self@.fits(code@),
    {
        match self.name {
            Some(span) => span.start <= span.end && span.end <= code.len(),
            None => true,
        }
    }
}

} // verus!
