//! Typed failures of the extraction pipeline.
//!
//! Every extractor aborts the whole pass with one of these values; no
//! partial usage record is ever produced.

use vstd::prelude::*;

verus! {

/// Why a located text value could not be read as a decimal quantity.
#[derive(Debug, Clone, Copy, PartialEq, Eq)]
pub enum NumberFault {
    /// No digits at all.
    Empty,
    /// A character outside digits and a single decimal separator.
    InvalidChar,
    /// More fractional digits than the exact decimal model keeps.
    TooManyFractionDigits,
    /// The integer part exceeds the largest representable volume.
    TooLarge,
}

/// A failure of one extraction pass.
#[derive(Debug, Clone, PartialEq, Eq)]
pub enum DatapassError {
    /// The fetched page is an authentication / redirect wall, not a usage
    /// page.  Extraction must not proceed; the message names the two
    /// resolution paths.
    AuthenticationRequired,
    /// An expected element is absent; carries which field was being sought.
    StructureNotFound(String),
    /// A selector itself was rejected by the query layer (defensive; the
    /// selectors are fixed).
    MalformedMarkup(String),
    /// A located text value could not be parsed as a number; carries the
    /// original text, untranslated.
    NumberFormat { text: String, fault: NumberFault },
}

impl NumberFault {
    /// A short human description of the parse failure.
    pub fn describe(&self) -> (r: &'static str)
        ensures
            r@ == match self {
                NumberFault::Empty => "no digits"@,
                NumberFault::InvalidChar => "invalid character"@,
                NumberFault::TooManyFractionDigits => "too many fractional digits"@,
                NumberFault::TooLarge => "value too large"@,
            },
    {
        match self {
            NumberFault::Empty => "no digits",
            NumberFault::InvalidChar => "invalid character",
            NumberFault::TooManyFractionDigits => "too many fractional digits",
            NumberFault::TooLarge => "value too large",
        }
    }
}

/// The text of the authentication error: it must explain the resolution
/// paths instead of reading like a missing selector.
pub open spec fn auth_message_spec() -> Seq<char> {
    "Authentication required. The website requires:\n  - Access from the carrier's mobile network, OR\n  - A valid login session\n\nTo test locally, use: --file <saved-html-file>"@
}

/// The user-facing message of each failure.
pub open spec fn message_spec(e: DatapassError) -> Seq<char> {
    match e {
        DatapassError::AuthenticationRequired => auth_message_spec(),
        DatapassError::StructureNotFound(what) => "Data not found in HTML: "@ + what@,
        DatapassError::MalformedMarkup(what) => "Failed to parse HTML: "@ + what@,
        DatapassError::NumberFormat { text, fault } => "Invalid number value '"@ + text@ + "': "@
            + match fault {
            NumberFault::Empty => "no digits"@,
            NumberFault::InvalidChar => "invalid character"@,
            NumberFault::TooManyFractionDigits => "too many fractional digits"@,
            NumberFault::TooLarge => "value too large"@,
        },
    }
}

impl DatapassError {
    /// The user-facing message of this failure.
    pub fn message(&self) -> (r: String)
        ensures
            r@ == message_spec(*self),
    {
        match self {
            DatapassError::AuthenticationRequired => String::from_str(
                "Authentication required. The website requires:\n  - Access from the carrier's mobile network, OR\n  - A valid login session\n\nTo test locally, use: --file <saved-html-file>",
            ),
            DatapassError::StructureNotFound(what) => String::from_str(
                "Data not found in HTML: ",
            ).concat(what.as_str()),
            DatapassError::MalformedMarkup(what) => String::from_str(
                "Failed to parse HTML: ",
            ).concat(what.as_str()),
            DatapassError::NumberFormat { text, fault } => String::from_str(
                "Invalid number value '",
            ).concat(text.as_str()).concat("': ").concat(fault.describe()),
        }
    }
}

} // verus!
