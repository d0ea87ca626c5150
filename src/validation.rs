//! The constraints on a create request, with every violation reported.

use vstd::prelude::*;
use crate::model::ShortenURLInput;
use crate::time::Timestamp;

verus! {

/// Longest accepted target URL, in characters.
pub const MAX_URL_LEN: u64 = 256;

/// An expiration date must lie more than this many seconds ahead.
pub const MIN_LEAD_SECS: i64 = 300;

/// An expiration date must lie less than this many seconds ahead (365 days).
pub const MAX_LEAD_SECS: i64 = 31_536_000;

/// One violated constraint of a create request.
#[derive(Clone, Copy, Debug, PartialEq, Eq, Structural)]
pub enum FieldError {
    /// `url` does not parse as an absolute URL.
    InvalidUrl,
    /// `url` holds more than `max` characters.
    UrlTooLong { max: u64 },
    /// `expiration_date` is `value`, outside the open window between
    /// `min_allowed` and `max_allowed`.
    InvalidExpiration { value: Timestamp, min_allowed: Timestamp, max_allowed: Timestamp },
}

/// Every violation of one request, the `url` field's first.
#[derive(Clone, Debug, PartialEq, Eq)]
pub struct ValidationErrors {
    pub errors: Vec<FieldError>,
}

/// Whether the text parses as an absolute URL.
pub uninterp spec fn url_is_valid(s: Seq<char>) -> bool;

/// Relies on validator's `validate_url`: whether `url::Url::parse` accepts
/// the text.
#[verifier::external_body]
fn is_url(s: &String) -> (r: bool)
    ensures
        r == url_is_valid(s@),
{
    validator::validate_url(s.as_str())
}

/// Relies on validator's `validate_length` with only a maximum: whether the
/// number of characters (`chars().count()`) is at most `max`.
#[verifier::external_body]
fn within_length(s: &String, max: u64) -> (r: bool)
    ensures
        r == (s@.len() <= max),
{
    validator::validate_length(s, None, Some(max), None)
}

/// `now` leaves room for the whole expiration window in an `i64`.
pub open spec fn window_fits(now: Timestamp) -> bool {
    now.secs + MAX_LEAD_SECS <= i64::MAX
}

/// The earliest instant, exclusive, at which an expiration may fall.
pub open spec fn window_start(now: Timestamp) -> Timestamp {
    Timestamp { secs: (now.secs + MIN_LEAD_SECS) as i64, nanos: now.nanos }
}

/// The latest instant, exclusive, at which an expiration may fall.
pub open spec fn window_end(now: Timestamp) -> Timestamp {
    Timestamp { secs: (now.secs + MAX_LEAD_SECS) as i64, nanos: now.nanos }
}

/// `e` lies more than five minutes and less than 365 days after `now`.
pub open spec fn expiration_allowed(e: Timestamp, now: Timestamp) -> bool {
    &&& e.after(now.secs + MIN_LEAD_SECS, now.nanos as int)
    &&& e.before(now.secs + MAX_LEAD_SECS, now.nanos as int)
}

/// The violations of a target URL, in the order they are reported.
pub open spec fn url_errors(url: Seq<char>) -> Seq<FieldError> {
    (if url_is_valid(url) {
        Seq::empty()
    } else {
        seq![FieldError::InvalidUrl]
    }) + (if url.len() <= MAX_URL_LEN {
        Seq::empty()
    } else {
        seq![FieldError::UrlTooLong { max: MAX_URL_LEN }]
    })
}

/// The violation, if any, of an expiration date judged at `now`.
pub open spec fn expiration_errors(e: Option<Timestamp>, now: Timestamp) -> Seq<FieldError> {
    match e {
        Some(v) => if expiration_allowed(v, now) {
            Seq::empty()
        } else {
            seq![
                FieldError::InvalidExpiration {
                    value: v,
                    min_allowed: window_start(now),
                    max_allowed: window_end(now),
                },
            ]
        },
        None => Seq::empty(),
    }
}

/// Every violation of `input` judged at `now`.
pub open spec fn validation_errors(input: ShortenURLInput, now: Timestamp) -> Seq<FieldError> {
    url_errors(input.url@) + expiration_errors(input.expiration_date, now)
}

/// Checks that `item` lies strictly between five minutes and 365 days after
/// `now`; otherwise reports it with both bounds.
pub fn validate_expiration(item: &Timestamp, now: Timestamp) -> (r: Result<(), FieldError>)
    requires
        window_fits(now),
    ensures
        r is Ok == expiration_allowed(*item, now),
        r is Err ==> r->Err_0 == (FieldError::InvalidExpiration {
            value: *item,
            min_allowed: window_start(now),
            max_allowed: window_end(now),
        }),
{
    let min_allowed = now.plus_seconds(MIN_LEAD_SECS);
    let max_allowed = now.plus_seconds(MAX_LEAD_SECS);
    if item.is_after(&min_allowed) && item.is_before(&max_allowed) {
        return Ok(());
    }
    Err(FieldError::InvalidExpiration { value: *item, min_allowed, max_allowed })
}

impl ShortenURLInput {
    /// Checks every constraint at `now` and reports all violations together.
    pub fn validate(&self, now: Timestamp) -> (r: Result<(), ValidationErrors>)
        requires
            window_fits(now),
        ensures
            r is Ok == (validation_errors(*self, now).len() == 0),
            r is Err ==> r->Err_0.errors@ == validation_errors(*self, now),
    {
        let mut errors: Vec<FieldError> = Vec::new();
        if !is_url(&self.url) {
            errors.push(FieldError::InvalidUrl);
        }
        if !within_length(&self.url, MAX_URL_LEN) {
            errors.push(FieldError::UrlTooLong { max: MAX_URL_LEN });
        }
        assert(errors@ =~= url_errors(self.url@));
        match &self.expiration_date {
            Some(e) => match validate_expiration(e, now) {
                Ok(()) => {},
                Err(fe) => errors.push(fe),
            },
            None => {},
        }
        assert(errors@ =~= validation_errors(*self, now));
        if errors.len() == 0 {
            Ok(())
        } else {
            Err(ValidationErrors { errors })
        }
    }
}

} // verus!
