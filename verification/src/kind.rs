use vstd::prelude::*;

verus! {

/// What a node is to the tools that measure, index or outline code.
#[derive(Clone, Copy, Debug, PartialEq, Eq, Structural)]
pub enum NodeKind {
    /// None of the constructs below.
    Unknown,
    /// A function or a generator, declared or written as an expression.
    Function,
    /// A class, declared or written as an expression.
    Class,
    /// The root of a compilation unit: a program or a module.
    Unit,
}

} // verus!
