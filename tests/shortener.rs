use url_shortener::error::{AppError, STATUS_BAD_REQUEST, STATUS_INTERNAL_SERVER_ERROR, STATUS_NOT_FOUND};
use url_shortener::handlers::{
    create_shorten, finish_shorten, get_shorten, index, prepare_shorten, redirect_shorten,
    STATUS_FOUND, STATUS_MOVED_PERMANENTLY,
};
use url_shortener::model::{ShortenURLInput, ShortenedUrlOutput, UrlItem};
use url_shortener::slug::SLUG_LEN;
use url_shortener::time::Timestamp;
use url_shortener::validation::{validate_expiration, FieldError, MAX_LEAD_SECS, MIN_LEAD_SECS};

const NOW: Timestamp = Timestamp { secs: 1_700_000_000, nanos: 250 };

fn input(url: &str, expiration_date: Option<Timestamp>, permanent_redirect: Option<bool>) -> ShortenURLInput {
    ShortenURLInput { url: url.to_string(), expiration_date, permanent_redirect }
}

fn now() -> Timestamp {
    let d = std::time::SystemTime::now().duration_since(std::time::UNIX_EPOCH).unwrap();
    Timestamp { secs: d.as_secs() as i64, nanos: d.subsec_nanos() }
}

fn is_url_safe(c: char) -> bool {
    c == '_' || c == '-' || c.is_ascii_digit() || c.is_ascii_lowercase() || c.is_ascii_uppercase()
}

fn item(url: &str, permanent_redirect: bool, ttl: Option<i64>) -> UrlItem {
    UrlItem {
        slug: "abcDEF-_09".to_string(),
        url: url.to_string(),
        permanent_redirect,
        ttl,
        created_at: NOW,
    }
}

fn errors_of(r: Result<UrlItem, AppError>) -> Vec<FieldError> {
    match r {
        Err(AppError::ValidationError(e)) => e.errors,
        other => panic!("expected a validation failure, got {:?}", other),
    }
}

#[test]
fn expiration_window_is_open_at_both_ends() {
    let min = Timestamp { secs: NOW.secs + 300, nanos: NOW.nanos };
    let max = Timestamp { secs: NOW.secs + 31_536_000, nanos: NOW.nanos };
    let expected = |v: Timestamp| FieldError::InvalidExpiration { value: v, min_allowed: min, max_allowed: max };
    assert_eq!(validate_expiration(&min, NOW), Err(expected(min)));
    assert_eq!(validate_expiration(&max, NOW), Err(expected(max)));
    let just_after_min = Timestamp { secs: min.secs, nanos: min.nanos + 1 };
    assert_eq!(validate_expiration(&just_after_min, NOW), Ok(()));
    let just_before_max = Timestamp { secs: max.secs, nanos: max.nanos - 1 };
    assert_eq!(validate_expiration(&just_before_max, NOW), Ok(()));
    assert_eq!(validate_expiration(&NOW, NOW), Err(expected(NOW)));
    assert_eq!(MIN_LEAD_SECS, 5 * 60);
    assert_eq!(MAX_LEAD_SECS, 365 * 24 * 60 * 60);
}

#[test]
fn sound_request_builds_record() {
    let exp = Timestamp { secs: NOW.secs + 3600, nanos: 999 };
    let r = prepare_shorten(input("https://example.com/a", Some(exp), None), "slug-12345".to_string(), NOW);
    let it = r.unwrap();
    assert_eq!(it.slug, "slug-12345");
    assert_eq!(it.url, "https://example.com/a");
    assert!(!it.permanent_redirect);
    assert_eq!(it.ttl, Some(NOW.secs + 3600));
    assert_eq!(it.created_at, NOW);
}

#[test]
fn created_slugs_are_ten_url_safe_characters_and_distinct() {
    let mut seen: Vec<String> = Vec::new();
    for _ in 0..200 {
        let t = now();
        let exp = Timestamp { secs: t.secs + 86_400, nanos: 0 };
        let it = create_shorten(input("https://example.com/x", Some(exp), Some(false))).unwrap();
        assert_eq!(it.slug.chars().count(), SLUG_LEN);
        assert!(it.slug.chars().all(is_url_safe));
        assert!(!seen.contains(&it.slug));
        seen.push(it.slug);
    }
}

#[test]
fn malformed_url_is_reported() {
    let errs = errors_of(create_shorten(input("not a url", None, None)));
    assert_eq!(errs, vec![FieldError::InvalidUrl]);
    let errs = errors_of(prepare_shorten(input("http", None, None), "s".to_string(), NOW));
    assert_eq!(errs, vec![FieldError::InvalidUrl]);
}

#[test]
fn long_url_is_reported_by_characters() {
    let base = "https://example.com/";
    let ok = format!("{}{}", base, "é".repeat(256 - base.len()));
    assert_eq!(ok.chars().count(), 256);
    assert!(prepare_shorten(input(&ok, None, None), "s".to_string(), NOW).is_ok());
    let long = format!("{}{}", base, "a".repeat(257 - base.len()));
    let errs = errors_of(create_shorten(input(&long, None, None)));
    assert_eq!(errs, vec![FieldError::UrlTooLong { max: 256 }]);
}

#[test]
fn every_violation_is_collected() {
    let long_bad = format!("no-scheme-{}", "a".repeat(300));
    let exp = Timestamp { secs: NOW.secs + 10, nanos: 0 };
    let errs = errors_of(prepare_shorten(input(&long_bad, Some(exp), None), "s".to_string(), NOW));
    assert_eq!(
        errs,
        vec![
            FieldError::InvalidUrl,
            FieldError::UrlTooLong { max: 256 },
            FieldError::InvalidExpiration {
                value: exp,
                min_allowed: Timestamp { secs: NOW.secs + 300, nanos: NOW.nanos },
                max_allowed: Timestamp { secs: NOW.secs + 31_536_000, nanos: NOW.nanos },
            },
        ]
    );
}

#[test]
fn expiration_outside_window_is_reported_with_bounds() {
    let t = now();
    let too_soon = Timestamp { secs: t.secs + 60, nanos: 0 };
    let errs = errors_of(create_shorten(input("https://example.com", Some(too_soon), None)));
    match errs.as_slice() {
        [FieldError::InvalidExpiration { value, min_allowed, max_allowed }] => {
            assert_eq!(*value, too_soon);
            assert_eq!(max_allowed.secs - min_allowed.secs, 31_536_000 - 300);
            assert!(min_allowed.secs >= t.secs + 300);
        }
        other => panic!("unexpected {:?}", other),
    }
    let too_late = Timestamp { secs: t.secs + 400 * 86_400, nanos: 0 };
    let errs = errors_of(create_shorten(input("https://example.com", Some(too_late), None)));
    assert!(matches!(errs.as_slice(), [FieldError::InvalidExpiration { .. }]));
}

#[test]
fn created_record_reads_back() {
    let exp = Timestamp { secs: NOW.secs + 7200, nanos: 123_456_789 };
    let it = prepare_shorten(input("https://example.com/r", Some(exp), Some(true)), "AbC_-12345".to_string(), NOW)
        .unwrap();
    let created = finish_shorten(it.clone(), Ok(())).unwrap();
    let fetched = get_shorten(Ok(Some(it))).unwrap();
    assert_eq!(created, fetched);
    assert_eq!(fetched.slug, "AbC_-12345");
    assert_eq!(fetched.url, "https://example.com/r");
    assert!(fetched.permanent_redirect);
    assert_eq!(fetched.created_at, NOW);
    assert_eq!(fetched.expiration_date, Some(Timestamp { secs: NOW.secs + 7200, nanos: 0 }));
}

#[test]
fn failed_write_is_reported() {
    let r = finish_shorten(item("https://example.com", false, None), Err(AppError::AwsSdkError));
    assert_eq!(r, Err(AppError::AwsSdkError));
    let reply = AppError::AwsSdkError.into_response();
    assert_eq!(reply.status, STATUS_INTERNAL_SERVER_ERROR);
    assert_eq!(reply.body, None);
    let reply = AppError::SerdeDynamo.into_response();
    assert_eq!(reply.status, 500);
    assert_eq!(reply.body, None);
}

#[test]
fn missing_slug_fetch_is_not_found() {
    let r = get_shorten(Ok(None));
    assert_eq!(r, Err(AppError::NotFound));
    let reply = r.unwrap_err().into_response();
    assert_eq!(reply.status, STATUS_NOT_FOUND);
    assert_eq!(reply.status, 404);
    assert!(reply.body.is_none());
    assert_eq!(get_shorten(Err(AppError::AwsSdkError)), Err(AppError::AwsSdkError));
}

#[test]
fn validation_failure_replies_bad_request_with_errors() {
    let e = AppError::ValidationError(url_shortener::validation::ValidationErrors {
        errors: vec![FieldError::InvalidUrl],
    });
    let reply = e.into_response();
    assert_eq!(reply.status, STATUS_BAD_REQUEST);
    assert_eq!(reply.status, 400);
    assert_eq!(reply.body.unwrap().errors, vec![FieldError::InvalidUrl]);
}

#[test]
fn missing_slug_redirects_to_root() {
    let r = redirect_shorten(Ok(None)).unwrap();
    assert_eq!(r.location, "/");
    assert!(!r.permanent);
    assert_eq!(r.status_code(), STATUS_FOUND);
    assert_eq!(r.status_code(), 302);
    assert!(matches!(redirect_shorten(Err(AppError::AwsSdkError)), Err(AppError::AwsSdkError)));
}

#[test]
fn redirect_kind_follows_record() {
    let p = redirect_shorten(Ok(Some(item("https://example.com/p", true, None)))).unwrap();
    assert_eq!(p.location, "https://example.com/p");
    assert_eq!(p.status_code(), STATUS_MOVED_PERMANENTLY);
    assert_eq!(p.status_code(), 301);
    let t = redirect_shorten(Ok(Some(item("https://example.com/t", false, None)))).unwrap();
    assert_eq!(t.location, "https://example.com/t");
    assert_eq!(t.status_code(), 302);
    let it = prepare_shorten(input("https://example.com/d", None, None), "s".to_string(), NOW).unwrap();
    assert_eq!(redirect_shorten(Ok(Some(it))).unwrap().status_code(), 302);
}

#[test]
fn fetching_twice_gives_same_response() {
    let it = item("https://example.com/twice", true, Some(NOW.secs + 900));
    let a = get_shorten(Ok(Some(it.clone())));
    let b = get_shorten(Ok(Some(it)));
    assert_eq!(a, b);
}

#[test]
fn stored_expiry_decodes_leniently() {
    let out = ShortenedUrlOutput::from_item(item("https://example.com", false, Some(1_700_000_123)));
    assert_eq!(out.expiration_date, Some(Timestamp { secs: 1_700_000_123, nanos: 0 }));
    let out = ShortenedUrlOutput::from_item(item("https://example.com", false, Some(i64::MAX)));
    assert_eq!(out.expiration_date, None);
    let out = ShortenedUrlOutput::from_item(item("https://example.com", false, None));
    assert_eq!(out.expiration_date, None);
    let out = ShortenedUrlOutput::from_item(item("https://example.com", false, Some(-86_400)));
    assert_eq!(out.expiration_date, Some(Timestamp { secs: -86_400, nanos: 0 }));
    let out = ShortenedUrlOutput::from_item(item("https://example.com", false, Some(i64::MIN)));
    assert_eq!(out.expiration_date, None);
    let given = Some(Timestamp { secs: 5, nanos: 0 });
    let out = ShortenedUrlOutput::with_expiration(item("https://example.com", false, Some(99)), given);
    assert_eq!(out.expiration_date, given);
}

#[test]
fn clock_stamps_creation() {
    let before = now();
    let it = create_shorten(input("https://example.com/c", None, None)).unwrap();
    let after = now();
    assert!(it.created_at.secs >= before.secs && it.created_at.secs <= after.secs);
    assert!(it.created_at.nanos < 1_000_000_000);
}

#[test]
fn permanent_link_scenario() {
    let it = create_shorten(input("https://example.com/very/long/path", None, Some(true))).unwrap();
    let created = finish_shorten(it.clone(), Ok(())).unwrap();
    assert_eq!(created.slug.chars().count(), 10);
    assert!(created.permanent_redirect);
    assert_eq!(created.expiration_date, None);
    let r = redirect_shorten(Ok(Some(it))).unwrap();
    assert_eq!(r.status_code(), 301);
    assert_eq!(r.location, "https://example.com/very/long/path");
}

#[test]
fn index_greets() {
    assert_eq!(index(), "Hello World!");
}
