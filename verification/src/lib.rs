//! Classification of syntax nodes, one node at a time: what kind of construct a node is
//! under its grammar, and the name by which a reader would call it.
//!
//! A [`SyntaxNode`] holds what classification reads of a node of a syntax tree: the kind
//! that the grammar gives it, and where the child in its `name` slot lies in the source.
//! [`Getter`] is what every grammar answers about such a node. `get_kind` looks the
//! node's kind up in the grammar's table and tells a function from a class, from the root
//! of the unit and from everything else; `get_func_space_name` cuts the node's name out of
//! the source buffer. Neither looks further than the node itself, and neither keeps
//! anything between two calls.
//!
//! The grammars are the types of [`langs`]. Those that have functions or classes have a
//! module each, with the table as a spec function, the rows of the table as a lemma, and
//! the lookup proved against the table.

pub mod getter;
pub mod javascript;
pub mod kind;
pub mod langs;
pub mod mozjs;
pub mod python;
pub mod syntax;
pub mod text;
pub mod tree;
pub mod tsx;
pub mod typescript;

pub use getter::{Getter, ANONYMOUS};
pub use kind::NodeKind;
pub use langs::{
    CCode, CSharpCode, CcommentCode, CppCode, CssCode, GoCode, HtmlCode, JavaCode, JavascriptCode,
    MozjsCode, PreprocCode, PythonCode, RustCode, TsxCode, TypescriptCode,
};
pub use syntax::{NodeModel, Span, SyntaxNode};
