use crate::getter::Getter;
use vstd::prelude::*;

verus! {

// The grammars. Each is a type with no value to it: it stands for the grammar in a call,
// as in `PythonCode::get_kind(&node)`.

/// Python.
pub struct PythonCode;

/// JavaScript as Mozilla's code base writes it.
pub struct MozjsCode;

/// JavaScript.
pub struct JavascriptCode;

/// TypeScript.
pub struct TypescriptCode;

/// TypeScript with embedded markup.
pub struct TsxCode;

/// The text of preprocessor directives.
pub struct PreprocCode;

/// Comments of C-like languages.
pub struct CcommentCode;

/// C.
pub struct CCode;

/// C++.
pub struct CppCode;

/// C#.
pub struct CSharpCode;

/// Java.
pub struct JavaCode;

/// Go.
pub struct GoCode;

/// CSS.
pub struct CssCode;

/// HTML.
pub struct HtmlCode;

/// Rust.
pub struct RustCode;

// The grammars without a table of their own: every node of theirs is of unknown kind.
impl Getter for PreprocCode {}

impl Getter for CcommentCode {}

impl Getter for CCode {}

impl Getter for CppCode {}

impl Getter for CSharpCode {}

impl Getter for JavaCode {}

impl Getter for GoCode {}

impl Getter for CssCode {}

impl Getter for HtmlCode {}

impl Getter for RustCode {}

} // verus!
