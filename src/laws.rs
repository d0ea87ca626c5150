//! Properties that relate the operations, proved from their contracts.

use vstd::prelude::*;
use crate::model::{ShortenURLInput, ShortenedUrlOutput, UrlItem, redirect_flag};
use crate::time::Timestamp;
use crate::validation::{
    FieldError,
    MAX_URL_LEN,
    expiration_allowed,
    url_is_valid,
    validation_errors,
    window_end,
    window_start,
};

verus! {

/// A request whose target is a URL of at most 256 characters, and whose
/// expiration date, if any, lies strictly between five minutes and 365 days
/// after `now`, has no violation at `now`.
pub proof fn lemma_sound_request_accepted(input: ShortenURLInput, now: Timestamp)
    requires
        url_is_valid(input.url@),
        input.url@.len() <= MAX_URL_LEN,
        match input.expiration_date {
            Some(e) => expiration_allowed(e, now),
            None => true,
        },
    ensures
        validation_errors(input, now).len() == 0,
{
}

/// A target that is not a URL, or holds more than 256 characters, is
/// reported as a violation of the `url` field, whatever else the request
/// holds.
pub proof fn lemma_bad_url_reported(input: ShortenURLInput, now: Timestamp)
    requires
        !url_is_valid(input.url@) || input.url@.len() > MAX_URL_LEN,
    ensures
        !url_is_valid(input.url@) ==> validation_errors(input, now)[0] == FieldError::InvalidUrl,
        input.url@.len() > MAX_URL_LEN ==> validation_errors(input, now).contains(
            FieldError::UrlTooLong { max: MAX_URL_LEN },
        ),
{
    let errs = validation_errors(input, now);
    if input.url@.len() > MAX_URL_LEN {
        let i: int = if url_is_valid(input.url@) { 0 } else { 1 };
        assert(errs[i] == FieldError::UrlTooLong { max: MAX_URL_LEN });
    }
}

/// An expiration date at most five minutes, or at least 365 days, after
/// `now` is reported with its value and both bounds of the window.
pub proof fn lemma_bad_expiration_reported(input: ShortenURLInput, now: Timestamp, e: Timestamp)
    requires
        input.expiration_date == Some(e),
        !expiration_allowed(e, now),
    ensures
        validation_errors(input, now).last() == (FieldError::InvalidExpiration {
            value: e,
            min_allowed: window_start(now),
            max_allowed: window_end(now),
        }),
{
}

/// Storing the record built from a sound request and fetching it back gives
/// the submitted target and redirect choice, the creation instant, and the
/// expiration date truncated to whole seconds.
pub proof fn lemma_round_trip(
    input: ShortenURLInput,
    slug: Seq<char>,
    now: Timestamp,
    item: UrlItem,
    out: ShortenedUrlOutput,
)
    requires
        input.wf(),
        input.builds(slug, now, item),
        out.describes(item),
    ensures
        out.slug@ == slug,
        out.url@ == input.url@,
        out.permanent_redirect == redirect_flag(input.permanent_redirect),
        out.created_at == now,
        out.expiration_date == match input.expiration_date {
            Some(e) => Some(e.whole_seconds()),
            None => None,
        },
{
}

/// Fetching the same record twice gives the same response: a read depends
/// on the record alone.
pub proof fn lemma_fetch_deterministic(item: UrlItem, a: ShortenedUrlOutput, b: ShortenedUrlOutput)
    requires
        a.describes(item),
        b.describes(item),
    ensures
        a.slug@ == b.slug@,
        a.url@ == b.url@,
        a.expiration_date == b.expiration_date,
        a.created_at == b.created_at,
        a.permanent_redirect == b.permanent_redirect,
{
}

} // verus!
