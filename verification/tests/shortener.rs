use shortener::handler::generate;
use shortener::handler::redirect;
use shortener::handler::GenerateOutcome;
use shortener::handler::ResolveOutcome;
use shortener::store::Store;
use shortener::store::StorageError;
use shortener::validator::validate;
use shortener::validator::ValidationError;

fn persisted_id(outcome: GenerateOutcome) -> String {
    match outcome {
        GenerateOutcome::Persisted { id } => id,
        GenerateOutcome::Rejected => panic!("expected Persisted, got Rejected"),
        GenerateOutcome::Failed => panic!("expected Persisted, got Failed"),
    }
}

fn found_url(outcome: ResolveOutcome) -> String {
    match outcome {
        ResolveOutcome::Found { url } => url,
        ResolveOutcome::NotFound => panic!("expected Found, got NotFound"),
        ResolveOutcome::Failed => panic!("expected Found, got Failed"),
    }
}

#[test]
fn round_trip_valid_url() {
    let mut store = Store::open_in_memory().unwrap();
    let id = persisted_id(generate(&mut store, "https://example.com/page"));
    assert!(!id.is_empty());
    let url = found_url(redirect(&store, &id));
    assert_eq!(url, "https://example.com/page");
}

#[test]
fn scenario_example_page() {
    let mut store = Store::open_in_memory().unwrap();
    let outcome = generate(&mut store, "https://example.com/page");
    assert_eq!(outcome.status_text(), "ok");
    assert_eq!(outcome.status_code(), 200);
    let id = persisted_id(outcome);
    // The identifier is a canonical hyphenated UUID.
    assert_eq!(id.len(), 36);
    let bytes = id.as_bytes();
    for pos in [8, 13, 18, 23] {
        assert_eq!(bytes[pos], b'-');
    }
    let resolved = redirect(&store, &id);
    assert_eq!(resolved.status_code(), 303);
    assert_eq!(found_url(resolved), "https://example.com/page");
}

#[test]
fn rejects_empty_string() {
    let mut store = Store::open_in_memory().unwrap();
    let outcome = generate(&mut store, "");
    assert!(matches!(outcome, GenerateOutcome::Rejected));
    assert_eq!(outcome.status_text(), "invalid url");
    assert_eq!(outcome.status_code(), 400);
}

#[test]
fn rejects_string_without_scheme() {
    let mut store = Store::open_in_memory().unwrap();
    let outcome = generate(&mut store, "not a url");
    assert!(matches!(outcome, GenerateOutcome::Rejected));
    assert_eq!(outcome.status_text(), "invalid url");
}

#[test]
fn unknown_identifier_not_found() {
    let store = Store::open_in_memory().unwrap();
    let outcome = redirect(&store, "never-issued-identifier");
    assert!(matches!(outcome, ResolveOutcome::NotFound));
    assert_eq!(outcome.status_text(), "not found");
    assert_eq!(outcome.status_code(), 404);
}

#[test]
fn distinct_generates_both_resolve() {
    let mut store = Store::open_in_memory().unwrap();
    let id1 = persisted_id(generate(&mut store, "https://example.com/first"));
    let id2 = persisted_id(generate(&mut store, "https://example.com/second"));
    assert_ne!(id1, id2);
    assert_eq!(found_url(redirect(&store, &id1)), "https://example.com/first");
    assert_eq!(found_url(redirect(&store, &id2)), "https://example.com/second");
}

#[test]
fn ftp_scheme_accepted() {
    let mut store = Store::open_in_memory().unwrap();
    let id = persisted_id(generate(&mut store, "ftp://x"));
    assert_eq!(found_url(redirect(&store, &id)), "ftp://x");
}

#[test]
fn resolve_is_idempotent() {
    let mut store = Store::open_in_memory().unwrap();
    let id = persisted_id(generate(&mut store, "https://example.com/stable"));
    let first = found_url(redirect(&store, &id));
    let second = found_url(redirect(&store, &id));
    assert_eq!(first, second);
    // A later Generate does not disturb the existing record.
    let _ = persisted_id(generate(&mut store, "https://example.com/other"));
    let third = found_url(redirect(&store, &id));
    assert_eq!(first, third);
}

#[test]
fn round_trip_url_with_quote_character() {
    // A single quote is a printable ASCII character, so the URL is valid and
    // must be stored verbatim through the parameterized insert.
    let mut store = Store::open_in_memory().unwrap();
    let id = persisted_id(generate(&mut store, "https://example.com/it's"));
    assert_eq!(found_url(redirect(&store, &id)), "https://example.com/it's");
}

#[test]
fn validated_url_is_kept_verbatim() {
    let validated = validate("https://example.com/a%20b").unwrap();
    assert_eq!(validated.as_str(), "https://example.com/a%20b");
    assert_eq!(validated.into_string(), "https://example.com/a%20b");
}

#[test]
fn store_conflict_on_duplicate_identifier() {
    let mut store = Store::open_in_memory().unwrap();
    assert!(store.insert("abc", "https://example.com/one").is_ok());
    let second = store.insert("abc", "https://example.com/two");
    assert!(matches!(second, Err(StorageError::Conflict)));
    // The original record is untouched.
    let url = store.lookup("abc").unwrap().unwrap();
    assert_eq!(url, "https://example.com/one");
}

#[test]
fn store_lookup_absent_identifier() {
    let store = Store::open_in_memory().unwrap();
    assert!(store.lookup("absent").unwrap().is_none());
}

#[test]
fn store_open_unreachable_path() {
    let opened = Store::open("/no-such-directory-anywhere/links.sqlite3");
    assert!(matches!(opened, Err(StorageError::Unavailable)));
}

#[test]
fn validate_accepts_well_formed_urls() {
    for candidate in [
        "https://example.com/page",
        "http://example.com",
        "ftp://x",
        "ftp+x-1.2://host/path?q=1#frag",
        "mailto:someone@example.com",
    ] {
        let validated = validate(candidate).unwrap();
        assert_eq!(validated.as_str(), candidate);
    }
}

#[test]
fn validate_rejects_malformed_strings() {
    for candidate in [
        "",
        "not a url",
        "no-colon-here",
        ":missing-scheme",
        "a:",
        "1st:starts-with-digit",
        "http://exa mple.com",
        "sch~eme://host",
    ] {
        let rejected = validate(candidate);
        assert!(matches!(rejected, Err(ValidationError::Malformed)));
    }
}

#[test]
fn outcome_status_codes_cover_failures() {
    assert_eq!(GenerateOutcome::Failed.status_text(), "internal server error");
    assert_eq!(GenerateOutcome::Failed.status_code(), 500);
    assert_eq!(ResolveOutcome::Failed.status_text(), "internal server error");
    assert_eq!(ResolveOutcome::Failed.status_code(), 500);
}
