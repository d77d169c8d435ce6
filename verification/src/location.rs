//! Where in a program an assertion was written.

use vstd::prelude::*;

verus! {

/// Mathematical model of a [`SourceLocation`].
pub struct LocationModel {
    pub file: Seq<char>,
    pub line: nat,
    pub column: nat,
}

/// File, line and column of the place an assertion was written at.
///
/// The value is captured by the caller and handed through every layer
/// unchanged, so a diagnostic always names the caller's own position and
/// never a position inside this library.
#[derive(Clone, Copy, Debug, PartialEq, Eq)]
pub struct SourceLocation {
    file: &'static str,
    line: u32,
    column: u32,
}

impl View for SourceLocation {
    type V = LocationModel;

    closed spec fn view(&self) -> LocationModel {
        LocationModel { file: self.file@, line: self.line as nat, column: self.column as nat }
    }
}

impl SourceLocation {
    /// The location `file:line:column`.
    pub fn new(file: &'static str, line: u32, column: u32) -> (at: SourceLocation)
        ensures
            at@ == (LocationModel { file: file@, line: line as nat, column: column as nat }),
    {
        SourceLocation { file, line, column }
    }

    /// Path of the source file.
    pub fn file(&self) -> (file: &'static str)
        ensures
            file@ == self@.file,
    {
        self.file
    }

    /// Line in the file, as the caller counted it.
    pub fn line(&self) -> (line: u32)
        ensures
            line == self@.line,
    {
        self.line
    }

    /// Column in the line, as the caller counted it.
    pub fn column(&self) -> (column: u32)
        ensures
            column == self@.column,
    {
        self.column
    }
}

} // verus!
