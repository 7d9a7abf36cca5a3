//! The ways in which parsing or rendering a mangled name can fail.

use vstd::prelude::*;

verus! {

/// Why a mangled name could not be parsed or rendered.
///
/// Every failure of the library is one of these values: malformed input
/// never aborts the process.
#[derive(Clone, Copy, Debug, PartialEq, Eq, Structural)]
pub enum Error {
    /// The input ended in the middle of a production.
    UnexpectedEnd,
    /// The bytes at the cursor match no alternative of the expected
    /// production.
    UnexpectedToken,
    /// A back-reference names a substitution that does not exist yet.
    InvalidBackReference,
    /// Types, template arguments or substitutions are nested more deeply
    /// than the configured limit allows.
    RecursionLimitExceeded,
    /// The whole input was asked to be one mangled name, and bytes were
    /// left over after it.
    UnexpectedTrailingBytes,
    /// The syntax tree handed to the renderer is inconsistent: a
    /// back-reference leads back to an entry that is being rendered, or an
    /// identifier lies outside the raw input.
    FormattingError,
}

impl Error {
    /// A short English description of the error.
    pub fn description(&self) -> (text: &'static str)
        ensures
            text@ == self.message(),
    {
        match self {
            Error::UnexpectedEnd => "mangled symbol ends abruptly",
            Error::UnexpectedToken => "mangled symbol is not well-formed",
            Error::InvalidBackReference => "back reference that is out-of-bounds of the substitution table",
            Error::RecursionLimitExceeded => "encountered too much recursion when demangling symbol",
            Error::UnexpectedTrailingBytes => "unexpected bytes after the mangled symbol",
            Error::FormattingError => "the parsed symbol is inconsistent and cannot be rendered",
        }
    }

    /// The text of [`Error::description`].
    pub open spec fn message(&self) -> Seq<char> {
        match self {
            Error::UnexpectedEnd => "mangled symbol ends abruptly"@,
            Error::UnexpectedToken => "mangled symbol is not well-formed"@,
            Error::InvalidBackReference => "back reference that is out-of-bounds of the substitution table"@,
            Error::RecursionLimitExceeded => "encountered too much recursion when demangling symbol"@,
            Error::UnexpectedTrailingBytes => "unexpected bytes after the mangled symbol"@,
            Error::FormattingError => "the parsed symbol is inconsistent and cannot be rendered"@,
        }
    }
}

} // verus!
