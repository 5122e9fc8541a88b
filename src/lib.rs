//! Unification of a dynamic front-end language's call sites with the native
//! functions that implement them, and the optimisation passes that erase the
//! cross-language boundary once a pair has been recognised.

use vstd::prelude::*;

pub mod analyzers;
pub mod c;
pub mod debugger;
pub mod error;
pub mod catalog;
pub mod front_ast;
pub mod inspect;
pub mod metadata;
pub mod native;
pub mod optimizer;
pub mod python;
pub mod session;
pub mod text;
pub mod tracer;
pub mod types;
pub mod unified;
pub mod unifier;

verus! {

/// A short description of the library.
pub fn placeholder() -> (r: &'static str)
    ensures
        r@ == "Spydecy - EXTREME TDD Quality"@,
{
    "Spydecy - EXTREME TDD Quality"
}

/// Release of this library.
pub const VERSION: &'static str = "0.1.0";

/// Language a node came from, or is emitted in.
#[derive(Debug, Clone, Copy, PartialEq, Eq, Hash, Structural)]
pub enum Language {
    /// The dynamic front-end language.
    Python,
    /// The native language of the front-end's runtime.
    C,
    /// The systems language that is emitted.
    Rust,
}

/// How a language is named.
pub open spec fn language_text(l: Language) -> Seq<char> {
    match l {
        Language::Python => "Python"@,
        Language::C => "C"@,
        Language::Rust => "Rust"@,
    }
}

impl Language {
    /// The name of the language.
    pub fn name(&self) -> (r: &'static str)
        ensures
            r@ == language_text(*self),
    {
        match self {
            Language::Python => "Python",
            Language::C => "C",
            Language::Rust => "Rust",
        }
    }

    /// The name of the language, as an owned string.
    pub fn to_string(&self) -> (r: String)
        ensures
            r@ == language_text(*self),
    {
        String::from_str(self.name())
    }
}

/// Where a node came from in its source file.
#[derive(Debug, Clone, PartialEq, Eq, Hash)]
pub struct SourceLocation {
    /// Path of the source file.
    pub file: String,
    /// Line, counted from 1.
    pub line: usize,
    /// Column, counted from 1.
    pub column: usize,
    /// Language of the source file.
    pub language: Language,
}

impl SourceLocation {
    /// A location from its parts.
    pub fn new(file: String, line: usize, column: usize, language: Language) -> (r: Self)
        ensures
            r == (SourceLocation { file, line, column, language }),
    {
        SourceLocation { file, line, column, language }
    }

    /// A copy of the location.
    pub fn copy(&self) -> (r: Self)
        ensures
            r == *self,
    {
        SourceLocation {
            file: self.file.clone(),
            line: self.line,
            column: self.column,
            language: self.language,
        }
    }
}

/// Handle of a node, used for cross-referencing; never reused within one
/// session and never implies ownership.
#[derive(Debug, Clone, Copy, PartialEq, Eq, Hash, Structural)]
pub struct NodeId(pub u64);

impl NodeId {
    /// The handle with number `id`.
    pub fn new(id: u64) -> (r: Self)
        ensures
            r.0 == id,
    {
        NodeId(id)
    }
}

/// Visibility of a declaration.
#[derive(Debug, Clone, Copy, PartialEq, Eq, Hash, Structural)]
pub enum Visibility {
    /// Exported.
    Public,
    /// Internal.
    Private,
    /// Module-level in the front-end, file-static in the native language.
    Module,
}

} // verus!
