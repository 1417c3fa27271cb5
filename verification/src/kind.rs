//! The kinds of failure a codec can report, and the fixed label of each.

use vstd::prelude::*;

verus! {

/// What went wrong while reading or writing an image stream.
#[derive(Clone, Copy, PartialEq, Eq, Debug, Structural)]
pub enum ErrorType {
    /// Fewer bytes were available than the format requires.
    InsufficientData,
    /// The stream does not start with the format's identifying bytes.
    BadMagic,
    /// A header field is outside what the format allows.
    BadMetadata,
    /// More bytes were supplied than the format allows.
    TooMuchData,
    /// The stream does not close with the format's terminator.
    BadEndMark,
    /// The underlying reader or writer failed.
    IOError,
}

impl ErrorType {
    /// The label of a kind, as a sequence of characters.
    pub open spec fn label(self) -> Seq<char> {
        match self {
            ErrorType::InsufficientData => "insufficient data"@,
            ErrorType::BadMagic => "bad magic value"@,
            ErrorType::BadMetadata => "bad metadata"@,
            ErrorType::TooMuchData => "too much data"@,
            ErrorType::BadEndMark => "bad end mark"@,
            ErrorType::IOError => "I/O error"@,
        }
    }

    /// The fixed, human-readable label of this kind.
    pub fn describe(&self) -> (text: &'static str)
        ensures
            text@ == self.label(),
            text@.len() > 0,
    {
        proof {
            lemma_label_nonempty(*self);
        }
        match self {
            ErrorType::InsufficientData => "insufficient data",
            ErrorType::BadMagic => "bad magic value",
            ErrorType::BadMetadata => "bad metadata",
            ErrorType::TooMuchData => "too much data",
            ErrorType::BadEndMark => "bad end mark",
            ErrorType::IOError => "I/O error",
        }
    }
}

/// Every kind has a label, and no label is empty.
pub proof fn lemma_label_nonempty(kind: ErrorType)
    ensures
        kind.label().len() > 0,
{
    reveal_strlit("insufficient data");
    reveal_strlit("bad magic value");
    reveal_strlit("bad metadata");
    reveal_strlit("too much data");
    reveal_strlit("bad end mark");
    reveal_strlit("I/O error");
}

} // verus!
