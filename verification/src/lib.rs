//! A client core for a word-translation HTTP endpoint.
//!
//! The library holds everything that can be decided without performing I/O:
//! the fixed endpoint and query parameters of a translation request, the
//! decoding of a response body, and the bounded retry policy that governs a
//! whole translation session.  A thin asynchronous shell performs the HTTP
//! requests and sleeps, and feeds each observed outcome back into the
//! library's decision function.

use vstd::prelude::*;

pub mod errors;
pub mod response;
pub mod retry;

pub use errors::TranslationError;
pub use response::json_wellformed;
pub use response::translation_at_path;
pub use retry::AttemptOutcome;
pub use retry::MAX_RETRIES;

use crate::response::BodyDecode;
use crate::response::decode_body;
use crate::retry::AttemptModel;
use crate::retry::attempt_model;
use crate::retry::random_backoff_units;
use crate::retry::valid_backoff;

verus! {

/// What the session should do after one attempt.
#[derive(Debug)]
pub enum Step {
    /// The attempt yielded this translation: the session is over.
    Translated(String),
    /// The session failed for good with this error.
    Failed(TranslationError),
    /// Pause for this many milliseconds, then attempt once more.
    Retry(u64),
}

/// The translation endpoint queried by every request.
pub open spec fn endpoint_url_spec() -> Seq<char> {
    "https://translate.googleapis.com/translate_a/single"@
}

/// The configuration of a translation session: a source and a target
/// language code.  Any string is accepted as a code; only the remote service
/// ever rejects one.
#[derive(Debug)]
pub struct Translator {
    source_lang: String,
    target_lang: String,
}

impl Translator {
    /// The configured source language code.
    pub closed spec fn spec_source(&self) -> Seq<char> {
        self.source_lang@
    }

    /// The configured target language code.
    pub closed spec fn spec_target(&self) -> Seq<char> {
        self.target_lang@
    }

    /// Records the two language codes verbatim.
    pub fn new(source_lang: String, target_lang: String) -> (t: Translator)
        ensures
            t.spec_source() == source_lang@,
            t.spec_target() == target_lang@,
    {
        Translator { source_lang, target_lang }
    }

    /// The URL that every attempt sends its GET request to.
    pub fn endpoint_url(&self) -> (r: &'static str)
        ensures
            r@ == endpoint_url_spec(),
    {
        "https://translate.googleapis.com/translate_a/single"
    }

    /// The query parameters of a request for `word`: the fixed client
    /// identifier and response-format flag, then the two configured language
    /// codes, then the word itself.
    pub fn query_params(&self, word: &str) -> (r: Vec<(String, String)>)
        ensures
            r@.len() == 5,
            r@[0].0@ == "client"@ && r@[0].1@ == "gtx"@,
            r@[1].0@ == "dt"@ && r@[1].1@ == "t"@,
            r@[2].0@ == "sl"@ && r@[2].1@ == self.spec_source(),
            r@[3].0@ == "tl"@ && r@[3].1@ == self.spec_target(),
            r@[4].0@ == "q"@ && r@[4].1@ == word@,
    {
        let mut r: Vec<(String, String)> = Vec::new();
        r.push(("client".to_owned(), "gtx".to_owned()));
        r.push(("dt".to_owned(), "t".to_owned()));
        r.push(("sl".to_owned(), self.source_lang.clone()));
        r.push(("tl".to_owned(), self.target_lang.clone()));
        r.push(("q".to_owned(), word.to_owned()));
        r
    }

    /// Decides what one attempt outcome means for the session: a transport
    /// failure or an undecodable body ends it at once with the matching
    /// error; a non-empty translation string ends it with that string; a
    /// parsable body without one (or with an empty one) is retried after a
    /// randomized pause while retries remain, and otherwise ends it with
    /// `NoTranslationFound` carrying the word.
    pub fn handle_attempt(&self, word: &str, retries: u64, outcome: AttemptOutcome) -> (s: Step)
        ensures
            (match attempt_model(outcome) {
                AttemptModel::Transport => s == Step::Failed(TranslationError::RequestFailed),
                AttemptModel::Unreadable => s == Step::Failed(
                    TranslationError::ResponseParsingFailed,
                ),
                AttemptModel::NotJson => s == Step::Failed(TranslationError::ResponseParsingFailed),
                AttemptModel::Found(t) => s matches Step::Translated(w) && w@ == t,
                AttemptModel::NoString => if retries < MAX_RETRIES {
                    s matches Step::Retry(d) && valid_backoff(d)
                } else {
                    s matches Step::Failed(TranslationError::NoTranslationFound(w)) && w@ == word@
                },
            }),
    {
        match outcome {
            AttemptOutcome::TransportFailed => Step::Failed(TranslationError::RequestFailed),
            AttemptOutcome::BodyUnreadable => Step::Failed(TranslationError::ResponseParsingFailed),
            AttemptOutcome::Body(text) => match decode_body(text.as_str()) {
                BodyDecode::NotJson => Step::Failed(TranslationError::ResponseParsingFailed),
                BodyDecode::Translation(s) => {
                    if s.as_str().is_empty() {
                        self.retry_or_give_up(word, retries)
                    } else {
                        Step::Translated(s)
                    }
                },
                BodyDecode::NoTranslation => self.retry_or_give_up(word, retries),
            },
        }
    }

    /// What a parsable body without a translation string leads to: a
    /// randomized pause while retries remain, the terminal error afterwards.
    fn retry_or_give_up(&self, word: &str, retries: u64) -> (s: Step)
        ensures
            (if retries < MAX_RETRIES {
                s matches Step::Retry(d) && valid_backoff(d)
            } else {
                s matches Step::Failed(TranslationError::NoTranslationFound(w)) && w@ == word@
            }),
    {
        if retries < MAX_RETRIES {
            let units = random_backoff_units();
            Step::Retry(units * 1000)
        } else {
            Step::Failed(TranslationError::NoTranslationFound(word.to_owned()))
        }
    }
}

} // verus!
