//! The ways in which composing or reading a POD5 file image can fail.

use vstd::prelude::*;

verus! {

/// A failure of the library. Errors of the file system never arise here: the
/// library works on the file's bytes, and whoever reads and writes the file
/// reports them.
#[derive(Clone, Copy, PartialEq, Eq, Structural, Debug)]
pub enum Pod5Error {
    /// The file is too short to end in a trailer, or the footer length in its
    /// trailer does not describe a span inside the file.
    MalformedTrailer,
    /// The bytes at the footer's position are not a footer record.
    MalformedFooter,
    /// The footer has no entry of the content kind that was asked for.
    KindNotPresent,
    /// The batch has more distinct categorical values than a 16-bit signed
    /// index can number.
    DictionaryOverflow,
    /// A call came out of turn: a table written twice, or anything after the
    /// footer.
    OutOfOrder,
    /// The columns of a row do not match the schema it was to be built for.
    SchemaMismatch,
    /// A text is not the canonical form of an identifier.
    InvalidIdentifier,
    /// The columnar codec refused a table.
    Codec,
    /// A key stands twice in a tag map of a run.
    DuplicateKey,
    /// A position or a count does not fit the format: the 64-bit signed
    /// integers of the footer, the size of a footer record, or the offsets
    /// of the columnar codec.
    TooLarge,
}

impl Pod5Error {
    pub open spec fn spec_message(self) -> Seq<char> {
        match self {
            Pod5Error::MalformedTrailer => "malformed trailer"@,
            Pod5Error::MalformedFooter => "malformed footer"@,
            Pod5Error::KindNotPresent => "content kind not present"@,
            Pod5Error::DictionaryOverflow => "too many distinct categorical values"@,
            Pod5Error::OutOfOrder => "call out of order"@,
            Pod5Error::SchemaMismatch => "columns do not match the schema"@,
            Pod5Error::InvalidIdentifier => "invalid identifier"@,
            Pod5Error::Codec => "the columnar codec refused the table"@,
            Pod5Error::DuplicateKey => "a key stands twice in a tag map"@,
            Pod5Error::TooLarge => "value too large for the format"@,
        }
    }

    /// A short description of the error.
    pub fn message(&self) -> (text: &'static str)
        ensures
            text@ == self.spec_message(),
    {
        match self {
            Pod5Error::MalformedTrailer => "malformed trailer",
            Pod5Error::MalformedFooter => "malformed footer",
            Pod5Error::KindNotPresent => "content kind not present",
            Pod5Error::DictionaryOverflow => "too many distinct categorical values",
            Pod5Error::OutOfOrder => "call out of order",
            Pod5Error::SchemaMismatch => "columns do not match the schema",
            Pod5Error::InvalidIdentifier => "invalid identifier",
            Pod5Error::Codec => "the columnar codec refused the table",
            Pod5Error::DuplicateKey => "a key stands twice in a tag map",
            Pod5Error::TooLarge => "value too large for the format",
        }
    }
}

} // verus!
