use translator::AttemptOutcome;
use translator::Step;
use translator::TranslationError;
use translator::Translator;
use translator::MAX_RETRIES;

const GOOD_BODY: &str = r#"[[["Bonjour","hello",null,null,10]]]"#;

/// Drives a whole session the way the asynchronous shell does, answering
/// every attempt with the same body, and returns the result together with the
/// number of attempts made.  No pause is observed between attempts.
fn run_session(t: &Translator, word: &str, body: &str) -> (Result<String, TranslationError>, u64) {
    let mut retries: u64 = 0;
    let mut attempts: u64 = 0;
    loop {
        attempts += 1;
        let outcome = AttemptOutcome::Body(body.to_owned());
        match t.handle_attempt(word, retries, outcome) {
            Step::Translated(s) => return (Ok(s), attempts),
            Step::Failed(e) => return (Err(e), attempts),
            Step::Retry(_) => retries += 1,
        }
    }
}

#[test]
fn transport_failure_fails_immediately() {
    let t = Translator::new("en".to_owned(), "fr".to_owned());
    match t.handle_attempt("hello", 0, AttemptOutcome::TransportFailed) {
        Step::Failed(TranslationError::RequestFailed) => {}
        other => panic!("expected RequestFailed, got {:?}", other),
    }
}

#[test]
fn unreadable_body_fails_immediately() {
    let t = Translator::new("en".to_owned(), "fr".to_owned());
    match t.handle_attempt("hello", 0, AttemptOutcome::BodyUnreadable) {
        Step::Failed(TranslationError::ResponseParsingFailed) => {}
        other => panic!("expected ResponseParsingFailed, got {:?}", other),
    }
}

#[test]
fn non_json_body_fails_immediately() {
    let t = Translator::new("en".to_owned(), "fr".to_owned());
    let outcome = AttemptOutcome::Body("this is not json".to_owned());
    match t.handle_attempt("hello", 0, outcome) {
        Step::Failed(TranslationError::ResponseParsingFailed) => {}
        other => panic!("expected ResponseParsingFailed, got {:?}", other),
    }
}

#[test]
fn translation_extracted_from_known_response() {
    let t = Translator::new("en".to_owned(), "fr".to_owned());
    let outcome = AttemptOutcome::Body(GOOD_BODY.to_owned());
    match t.handle_attempt("hello", 0, outcome) {
        Step::Translated(s) => assert_eq!(s, "Bonjour"),
        other => panic!("expected a translation, got {:?}", other),
    }
}

#[test]
fn missing_path_retries_with_bounded_backoff() {
    let t = Translator::new("en".to_owned(), "fr".to_owned());
    for retries in 0..MAX_RETRIES {
        let outcome = AttemptOutcome::Body("{}".to_owned());
        match t.handle_attempt("hello", retries, outcome) {
            Step::Retry(d) => {
                assert_eq!(d % 1000, 0);
                assert!(d <= 5000);
            }
            other => panic!("expected a retry, got {:?}", other),
        }
    }
}

#[test]
fn exhausted_retries_report_the_word() {
    let t = Translator::new("en".to_owned(), "fr".to_owned());
    let outcome = AttemptOutcome::Body("{}".to_owned());
    match t.handle_attempt("hello", MAX_RETRIES, outcome) {
        Step::Failed(e) => {
            match &e {
                TranslationError::NoTranslationFound(w) => assert_eq!(w, "hello"),
                other => panic!("expected NoTranslationFound, got {:?}", other),
            }
            assert_eq!(e.message(), "No translation found for: hello");
        }
        other => panic!("expected a failure, got {:?}", other),
    }
}

#[test]
fn empty_string_at_path_is_no_translation() {
    let t = Translator::new("en".to_owned(), "fr".to_owned());
    let outcome = AttemptOutcome::Body(r#"[[[""]]]"#.to_owned());
    match t.handle_attempt("hello", 0, outcome) {
        Step::Retry(_) => {}
        other => panic!("expected a retry, got {:?}", other),
    }
    let (result, attempts) = run_session(&t, "hello", r#"[[[""]]]"#);
    assert_eq!(attempts, 4);
    match result {
        Err(TranslationError::NoTranslationFound(w)) => assert_eq!(w, "hello"),
        other => panic!("expected NoTranslationFound, got {:?}", other),
    }
}

#[test]
fn non_string_at_path_is_no_translation() {
    let t = Translator::new("en".to_owned(), "fr".to_owned());
    for body in ["[[[42]]]", "[]", "null", r#"{"a":"b"}"#] {
        let outcome = AttemptOutcome::Body(body.to_owned());
        match t.handle_attempt("word", MAX_RETRIES, outcome) {
            Step::Failed(TranslationError::NoTranslationFound(_)) => {}
            other => panic!("expected NoTranslationFound for {}, got {:?}", body, other),
        }
    }
}

#[test]
fn empty_translation_makes_exactly_four_attempts() {
    let t = Translator::new("en".to_owned(), "fr".to_owned());
    let (result, attempts) = run_session(&t, "hello", "{}");
    assert_eq!(attempts, 4);
    match result {
        Err(TranslationError::NoTranslationFound(w)) => assert_eq!(w, "hello"),
        other => panic!("expected NoTranslationFound, got {:?}", other),
    }
}

#[test]
fn success_after_two_empty_attempts_stops_retrying() {
    let t = Translator::new("en".to_owned(), "fr".to_owned());
    let mut retries: u64 = 0;
    let mut attempts: u64 = 0;
    let bodies = ["{}", "{}", GOOD_BODY, GOOD_BODY];
    let mut result: Option<String> = None;
    for body in bodies {
        attempts += 1;
        let outcome = AttemptOutcome::Body(body.to_owned());
        match t.handle_attempt("hello", retries, outcome) {
            Step::Translated(s) => {
                result = Some(s);
                break;
            }
            Step::Failed(e) => panic!("unexpected failure {:?}", e),
            Step::Retry(_) => retries += 1,
        }
    }
    assert_eq!(attempts, 3);
    assert_eq!(result.as_deref(), Some("Bonjour"));
}

#[test]
fn repeated_success_returns_the_same_string() {
    let t = Translator::new("en".to_owned(), "fr".to_owned());
    let (first, _) = run_session(&t, "hello", GOOD_BODY);
    let (second, _) = run_session(&t, "hello", GOOD_BODY);
    assert_eq!(first.unwrap(), second.unwrap());
}

#[test]
fn query_parameters_are_fixed_and_ordered() {
    let t = Translator::new("en".to_owned(), "fr".to_owned());
    let params = t.query_params("hello");
    let expected = vec![
        ("client".to_owned(), "gtx".to_owned()),
        ("dt".to_owned(), "t".to_owned()),
        ("sl".to_owned(), "en".to_owned()),
        ("tl".to_owned(), "fr".to_owned()),
        ("q".to_owned(), "hello".to_owned()),
    ];
    assert_eq!(params, expected);
}

#[test]
fn endpoint_is_the_fixed_translation_url() {
    let t = Translator::new("en".to_owned(), "fr".to_owned());
    assert_eq!(
        t.endpoint_url(),
        "https://translate.googleapis.com/translate_a/single"
    );
}

#[test]
fn error_messages_name_each_failure() {
    assert_eq!(
        TranslationError::RequestFailed.message(),
        "Failed to send translation request"
    );
    assert_eq!(
        TranslationError::ResponseParsingFailed.message(),
        "Failed to parse response body as JSON"
    );
    assert_eq!(
        TranslationError::NoTranslationFound("hi".to_owned()).message(),
        "No translation found for: hi"
    );
}

#[test]
fn variants_are_distinguishable_from_messages_alone() {
    // Even a word that echoes another variant's text keeps its own prefix.
    let echo = TranslationError::NoTranslationFound("Failed to send translation request".to_owned());
    assert_ne!(echo.message(), TranslationError::RequestFailed.message());
    assert_ne!(
        TranslationError::RequestFailed.message(),
        TranslationError::ResponseParsingFailed.message()
    );
    assert_ne!(
        TranslationError::ResponseParsingFailed.message(),
        TranslationError::NoTranslationFound("hello".to_owned()).message()
    );
}
