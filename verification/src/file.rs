//! A named source text, handed from stage to stage so diagnostics can quote
//! the file they point into.

use vstd::prelude::*;

verus! {

/// A source file: its name (without extension) and its full text.
pub struct SourceFile {
    pub name: String,
    pub src: String,
}

impl SourceFile {
    /// Bundle a file name and its text.
    pub fn new(name: String, src: String) -> (r: SourceFile)
        ensures
            r.name == name,
            r.src == src,
    {
        SourceFile { name, src }
    }
}

} // verus!
