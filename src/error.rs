use vstd::prelude::*;

verus! {

/// What can go wrong while indexing, decoding or checking a boot image.
#[derive(Debug, PartialEq, Eq)]
pub enum ImageError {
    /// A symbol that the query needs is not in the symbol table.
    MissingSymbol(String),
    /// A section that the query needs is not in the section table.
    MissingSection(String),
    /// The bytes are not an ELF image, or a decoded offset falls outside them.
    MalformedBinary(String),
    /// A section does not sit where the profile expects it.
    LayoutViolation { section: String, expected: u64, actual: u64 },
    /// The build of an image exited with a failure status.
    SubprocessFailure(i32),
}

impl ImageError {
    /// Whether this is `MissingSymbol` naming `name`.
    pub open spec fn missing_symbol(&self, name: Seq<char>) -> bool {
        self matches ImageError::MissingSymbol(n) && n@ == name
    }

    /// Whether this is `MissingSection` naming `name`.
    pub open spec fn missing_section(&self, name: Seq<char>) -> bool {
        self matches ImageError::MissingSection(n) && n@ == name
    }
}

} // verus!
