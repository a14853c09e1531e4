//! The error taxonomy of a translation session.

use vstd::prelude::*;
use vstd::string::StringExecFns;

verus! {

/// Why a translation session failed.
///
/// Exactly three terminal failures exist: the request could not be sent at
/// all, the response body could not be decoded as JSON, or the decoded JSON
/// never carried a translation string within the retry budget.  The last
/// variant carries the word whose translation was never found.
#[derive(Debug)]
pub enum TranslationError {
    RequestFailed,
    ResponseParsingFailed,
    NoTranslationFound(String),
}

/// The message of `TranslationError::NoTranslationFound`: a fixed prefix
/// followed by the word whose translation was never found.
pub open spec fn no_translation_message(word: Seq<char>) -> Seq<char> {
    "No translation found for: "@ + word
}

/// The human-readable message of each error variant.  Each variant's message
/// starts with its own fixed text, so the three variants are distinguishable
/// from their messages alone.
pub open spec fn error_message_spec(e: &TranslationError) -> Seq<char> {
    match e {
        TranslationError::RequestFailed => "Failed to send translation request"@,
        TranslationError::ResponseParsingFailed => "Failed to parse response body as JSON"@,
        TranslationError::NoTranslationFound(word) => no_translation_message(word@),
    }
}

impl TranslationError {
    /// A human-readable description of the failure.
    pub fn message(&self) -> (r: String)
        ensures
            r@ == error_message_spec(self),
    {
        match self {
            TranslationError::RequestFailed => "Failed to send translation request".to_owned(),
            TranslationError::ResponseParsingFailed => {
                "Failed to parse response body as JSON".to_owned()
            },
            TranslationError::NoTranslationFound(word) => {
                "No translation found for: ".to_owned().concat(word.as_str())
            },
        }
    }
}

} // verus!
