//! The bounded retry policy of a translation session.
//!
//! A session is a sequence of attempts.  Each attempt either fails at the
//! transport, fails to read the body, or yields a body text; the body then
//! either is not JSON, carries no translation string, or carries one.  Only
//! the "no translation string" outcome is retried, up to `MAX_RETRIES` extra
//! attempts with a randomized pause before each; every other outcome ends the
//! session at once.  `run_spec` is the mathematical model of a whole session
//! over a sequence of attempt outcomes.

use vstd::prelude::*;

use crate::response::json_wellformed;
use crate::response::translation_at_path;

verus! {

/// How many extra attempts may follow the first one.
pub const MAX_RETRIES: u64 = 3;

/// What one HTTP attempt handed back to the decision logic.
#[derive(Debug)]
pub enum AttemptOutcome {
    /// The request could not be sent (connection, DNS or timeout failure).
    TransportFailed,
    /// The response arrived but its body could not be read as text.
    BodyUnreadable,
    /// The response body, as text.
    Body(String),
}

/// What one attempt outcome means, at the specification level.
pub enum AttemptModel {
    Transport,
    Unreadable,
    NotJson,
    NoString,
    Found(Seq<char>),
}

/// Classifies one attempt outcome.  An empty string at the extraction path
/// counts as no translation: a session only ever returns a non-empty string.
pub open spec fn attempt_model(o: AttemptOutcome) -> AttemptModel {
    match o {
        AttemptOutcome::TransportFailed => AttemptModel::Transport,
        AttemptOutcome::BodyUnreadable => AttemptModel::Unreadable,
        AttemptOutcome::Body(text) => if !json_wellformed(text@) {
            AttemptModel::NotJson
        } else {
            match translation_at_path(text@) {
                Some(t) => if t.len() == 0 {
                    AttemptModel::NoString
                } else {
                    AttemptModel::Found(t)
                },
                None => AttemptModel::NoString,
            }
        },
    }
}

/// How a whole session ends, at the specification level.
pub enum RunModel {
    /// The translated string that some attempt yielded.
    Translated(Seq<char>),
    /// A transport failure ended the session.
    RequestFailed,
    /// An unreadable or non-JSON body ended the session.
    ParsingFailed,
    /// Every allowed attempt parsed but carried no translation string.
    NoTranslation,
    /// The outcome sequence ended before the session did.
    NeedsMore,
}

/// The result of a session that starts with `retries` retries already spent
/// and then observes `outcomes`, one per attempt: the way it ends, paired
/// with the number of outcomes it consumed.
pub open spec fn run_spec(outcomes: Seq<AttemptOutcome>, retries: int) -> (RunModel, int)
    decreases outcomes.len(),
{
    if outcomes.len() == 0 {
        (RunModel::NeedsMore, 0)
    } else {
        match attempt_model(outcomes[0]) {
            AttemptModel::Transport => (RunModel::RequestFailed, 1),
            AttemptModel::Unreadable => (RunModel::ParsingFailed, 1),
            AttemptModel::NotJson => (RunModel::ParsingFailed, 1),
            AttemptModel::Found(t) => (RunModel::Translated(t), 1),
            AttemptModel::NoString => if retries < MAX_RETRIES {
                let rest = run_spec(outcomes.drop_first(), retries + 1);
                (rest.0, rest.1 + 1)
            } else {
                (RunModel::NoTranslation, 1)
            },
        }
    }
}

/// A pause drawn by the retry policy: a whole number of seconds, at most five,
/// in milliseconds.
pub open spec fn valid_backoff(d: u64) -> bool {
    d % 1000 == 0 && d <= 5000
}

/// Law: a transport failure ends the session at once, after exactly one
/// attempt, with `RequestFailed`; no retry is made, however many retries were
/// still available.
pub proof fn lemma_transport_failure_no_retry(outcomes: Seq<AttemptOutcome>, retries: int)
    requires
        outcomes.len() > 0,
        outcomes[0] is TransportFailed,
    ensures
        run_spec(outcomes, retries) == (RunModel::RequestFailed, 1int),
{
}

/// Law: a body that is not valid JSON ends the session at once, after exactly
/// one attempt, with a parsing failure; no retry is made.
pub proof fn lemma_unparsable_body_no_retry(outcomes: Seq<AttemptOutcome>, retries: int)
    requires
        outcomes.len() > 0,
        (outcomes[0] matches AttemptOutcome::Body(body) && !json_wellformed(body@)),
    ensures
        run_spec(outcomes, retries) == (RunModel::ParsingFailed, 1int),
{
}

proof fn lemma_no_string_run(outcomes: Seq<AttemptOutcome>, retries: int)
    requires
        0 <= retries <= MAX_RETRIES,
        outcomes.len() > MAX_RETRIES - retries,
        forall|i: int| 0 <= i <= MAX_RETRIES - retries ==> attempt_model(outcomes[i]) is NoString,
    ensures
        run_spec(outcomes, retries) == (RunModel::NoTranslation, MAX_RETRIES - retries + 1),
    decreases MAX_RETRIES - retries,
{
    assert(attempt_model(outcomes[0]) is NoString);
    if retries < MAX_RETRIES {
        let rest = outcomes.drop_first();
        assert forall|i: int| 0 <= i <= MAX_RETRIES - (retries + 1) implies attempt_model(
            rest[i],
        ) is NoString by {
            assert(rest[i] == outcomes[i + 1]);
        }
        lemma_no_string_run(rest, retries + 1);
    }
}

/// Law: when every allowed attempt yields a body that parses as JSON but
/// carries no translation string, the session makes exactly `MAX_RETRIES + 1`
/// attempts (one initial try and `MAX_RETRIES` retries) and then ends with no
/// translation found.
pub proof fn lemma_retries_exhausted(outcomes: Seq<AttemptOutcome>)
    requires
        outcomes.len() > MAX_RETRIES,
        forall|i: int| 0 <= i <= MAX_RETRIES ==> attempt_model(outcomes[i]) is NoString,
    ensures
        run_spec(outcomes, 0) == (RunModel::NoTranslation, MAX_RETRIES + 1),
{
    lemma_no_string_run(outcomes, 0);
}

proof fn lemma_found_run(outcomes: Seq<AttemptOutcome>, n: int, retries: int, t: Seq<char>)
    requires
        0 <= n,
        0 <= retries,
        n + retries <= MAX_RETRIES,
        n < outcomes.len(),
        forall|i: int| 0 <= i < n ==> attempt_model(outcomes[i]) is NoString,
        attempt_model(outcomes[n]) == AttemptModel::Found(t),
    ensures
        run_spec(outcomes, retries) == (RunModel::Translated(t), n + 1),
    decreases n,
{
    if n > 0 {
        assert(attempt_model(outcomes[0]) is NoString);
        let rest = outcomes.drop_first();
        assert forall|i: int| 0 <= i < n - 1 implies attempt_model(rest[i]) is NoString by {
            assert(rest[i] == outcomes[i + 1]);
        }
        assert(rest[n - 1] == outcomes[n]);
        lemma_found_run(rest, n - 1, retries + 1, t);
    }
}

/// Law: when the first `n` attempts (for `n` within the retry budget) yield
/// bodies that parse but carry no translation string, and attempt `n + 1`
/// yields the string `t`, the session returns `t` after exactly `n + 1`
/// attempts: no further retry is made.
pub proof fn lemma_success_after_failures(outcomes: Seq<AttemptOutcome>, n: int, t: Seq<char>)
    requires
        0 <= n <= MAX_RETRIES,
        n < outcomes.len(),
        forall|i: int| 0 <= i < n ==> attempt_model(outcomes[i]) is NoString,
        attempt_model(outcomes[n]) == AttemptModel::Found(t),
    ensures
        run_spec(outcomes, 0) == (RunModel::Translated(t), n + 1),
{
    lemma_found_run(outcomes, n, 0, t);
}

/// Law: a session that ends with a translation returns a non-empty string.
pub proof fn lemma_translation_nonempty(outcomes: Seq<AttemptOutcome>, retries: int, t: Seq<char>)
    requires
        run_spec(outcomes, retries).0 == RunModel::Translated(t),
    ensures
        t.len() > 0,
    decreases outcomes.len(),
{
    assert(outcomes.len() > 0);
    match attempt_model(outcomes[0]) {
        AttemptModel::Found(t0) => {
            assert(t0 == t);
        },
        AttemptModel::NoString => {
            if retries < MAX_RETRIES {
                lemma_translation_nonempty(outcomes.drop_first(), retries + 1, t);
            } else {
                assert(false);
            }
        },
        _ => {
            assert(false);
        },
    }
}

/// Whether an attempt outcome is a response whose body text is `b`.
pub open spec fn stable_body(o: AttemptOutcome, b: Seq<char>) -> bool {
    o matches AttemptOutcome::Body(body) && body@ == b
}

proof fn lemma_stable_backend_success(
    outcomes: Seq<AttemptOutcome>,
    retries: int,
    b: Seq<char>,
    t: Seq<char>,
)
    requires
        forall|i: int| 0 <= i < outcomes.len() ==> stable_body(#[trigger] outcomes[i], b),
        run_spec(outcomes, retries).0 == RunModel::Translated(t),
    ensures
        json_wellformed(b),
        translation_at_path(b) == Some(t),
    decreases outcomes.len(),
{
    assert(outcomes.len() > 0);
    assert(stable_body(outcomes[0], b));
    match attempt_model(outcomes[0]) {
        AttemptModel::Found(t0) => {
            assert(t0 == t);
        },
        AttemptModel::NoString => {
            let rest = outcomes.drop_first();
            assert forall|i: int| 0 <= i < rest.len() implies stable_body(
                #[trigger] rest[i],
                b,
            ) by {
                assert(rest[i] == outcomes[i + 1]);
            }
            lemma_stable_backend_success(rest, retries + 1, b, t);
        },
        _ => {
            assert(false);
        },
    }
}

/// Law (idempotence): against a stable backend that answers every attempt of
/// both sessions with the same body, any two sessions that end with a
/// translation return the same translated string.
pub proof fn lemma_idempotent_success(
    o1: Seq<AttemptOutcome>,
    r1: int,
    o2: Seq<AttemptOutcome>,
    r2: int,
    b: Seq<char>,
    t1: Seq<char>,
    t2: Seq<char>,
)
    requires
        forall|i: int| 0 <= i < o1.len() ==> stable_body(#[trigger] o1[i], b),
        forall|i: int| 0 <= i < o2.len() ==> stable_body(#[trigger] o2[i], b),
        run_spec(o1, r1).0 == RunModel::Translated(t1),
        run_spec(o2, r2).0 == RunModel::Translated(t2),
    ensures
        t1 == t2,
{
    lemma_stable_backend_success(o1, r1, b, t1);
    lemma_stable_backend_success(o2, r2, b, t2);
}

/// Relies on `rand::Rng::gen_range` over `rand::thread_rng`: the draw lies in
/// the requested range.  Nothing else is assumed of a random value.
#[verifier::external_body]
pub(crate) fn random_backoff_units() -> (r: u64)
    ensures
        r <= 5,
{
    rand::Rng::gen_range(&mut rand::thread_rng(), 0u64..=5u64)
}

} // verus!
