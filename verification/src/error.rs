//! The ways in which the analysis of one transaction can fail.

use vstd::prelude::*;
use vstd::string::*;

verus! {

/// Why no summary could be produced for a transaction.
///
/// Every failure is terminal for the transaction at hand: nothing is retried
/// and no partial summary is handed out.
#[derive(Clone, Debug, PartialEq, Eq)]
pub enum Error {
    /// The raw transaction bytes are empty.
    MalformedInput,
    /// The bytes are not a well-formed transaction under the resolved rule
    /// set. Carries the parser's own diagnostic.
    ParseError(String),
    /// An output carries a transfer classification outside the closed set.
    UnknownClassification,
    /// A monetary total does not fit the signed field of the summary.
    AmountOverflow,
    /// The transaction identifier is not what it has to be: too short to
    /// shorten for display, or not the hexadecimal digits of a 32-byte value
    /// where that is asked for.
    InvalidIdentifier,
    /// The first characters of the viewing key name no network.
    UnknownKeyFormat,
    /// The text is no unified full viewing key of the network it names.
    /// Carries the key decoder's own diagnostic.
    InvalidViewingKey(String),
}

/// An [`Error`] as contracts see it.
pub enum ErrorView {
    MalformedInput,
    ParseError(Seq<char>),
    UnknownClassification,
    AmountOverflow,
    InvalidIdentifier,
    UnknownKeyFormat,
    InvalidViewingKey(Seq<char>),
}

impl View for Error {
    type V = ErrorView;

    open spec fn view(&self) -> ErrorView {
        match *self {
            Error::MalformedInput => ErrorView::MalformedInput,
            Error::ParseError(diagnostic) => ErrorView::ParseError(diagnostic@),
            Error::UnknownClassification => ErrorView::UnknownClassification,
            Error::AmountOverflow => ErrorView::AmountOverflow,
            Error::InvalidIdentifier => ErrorView::InvalidIdentifier,
            Error::UnknownKeyFormat => ErrorView::UnknownKeyFormat,
            Error::InvalidViewingKey(diagnostic) => ErrorView::InvalidViewingKey(diagnostic@),
        }
    }
}

/// The sentence that tells a person what went wrong.
pub open spec fn message_of(failure: ErrorView) -> Seq<char> {
    match failure {
        ErrorView::MalformedInput => "Raw transaction hex is invalid (not hex or empty)"@,
        ErrorView::ParseError(diagnostic) => "Failed to parse transaction from raw hex: "@
            + diagnostic,
        ErrorView::UnknownClassification => "An output has an unknown transfer classification"@,
        ErrorView::AmountOverflow => "Amount exceeds i64 range"@,
        ErrorView::InvalidIdentifier => "TXID must be 64 hex characters"@,
        ErrorView::UnknownKeyFormat => "Invalid UFVK format. Expected to start with 'uview1' (mainnet) or 'uviewtest1' (testnet)"@,
        ErrorView::InvalidViewingKey(diagnostic) => "Failed to decode UFVK: "@ + diagnostic,
    }
}

impl Error {
    /// The sentence that tells a person what went wrong.
    pub fn message(&self) -> (text: String)
        ensures
            text@ == message_of(self@),
    {
        match self {
            Error::MalformedInput => "Raw transaction hex is invalid (not hex or empty)".to_owned(),
            Error::ParseError(diagnostic) => {
                let mut text = "Failed to parse transaction from raw hex: ".to_owned();
                text.append(diagnostic.as_str());
                text
            },
            Error::UnknownClassification => "An output has an unknown transfer classification"
                .to_owned(),
            Error::AmountOverflow => "Amount exceeds i64 range".to_owned(),
            Error::InvalidIdentifier => "TXID must be 64 hex characters".to_owned(),
            Error::UnknownKeyFormat => "Invalid UFVK format. Expected to start with 'uview1' (mainnet) or 'uviewtest1' (testnet)".to_owned(),
            Error::InvalidViewingKey(diagnostic) => {
                let mut text = "Failed to decode UFVK: ".to_owned();
                text.append(diagnostic.as_str());
                text
            },
        }
    }
}

} // verus!
