//! The create, fetch and redirect operations.  Each takes what the store
//! answered and decides the reply; the caller performs the storage calls.

use vstd::prelude::*;
use crate::error::AppError;
use crate::model::{ShortenURLInput, ShortenedUrlOutput, UrlItem};
use crate::slug::{is_slug, new_slug};
use crate::time::Timestamp;
use crate::validation::{MAX_URL_LEN, url_is_valid, validation_errors, window_fits};

verus! {

/// HTTP status of a permanent redirect.
pub const STATUS_MOVED_PERMANENTLY: u16 = 301;

/// HTTP status of a temporary redirect.
pub const STATUS_FOUND: u16 = 302;

/// Where a slug sends the client, and how.
#[derive(Clone, Debug, PartialEq, Eq)]
pub struct Redirect {
    pub location: String,
    pub permanent: bool,
}

impl Redirect {
    /// The HTTP status of this redirect.
    pub fn status_code(&self) -> (r: u16)
        ensures
            r == (if self.permanent { STATUS_MOVED_PERMANENTLY } else { STATUS_FOUND }),
    {
        if self.permanent {
            STATUS_MOVED_PERMANENTLY
        } else {
            STATUS_FOUND
        }
    }
}

/// The outcome of a create request judged at `now` and given `slug`: the
/// record to store, or every violation of the request.
pub open spec fn shorten_outcome(
    input: ShortenURLInput,
    slug: Seq<char>,
    now: Timestamp,
    r: Result<UrlItem, AppError>,
) -> bool {
    match r {
        Ok(item) => validation_errors(input, now).len() == 0 && input.builds(slug, now, item),
        Err(AppError::ValidationError(e)) => {
            &&& validation_errors(input, now).len() > 0
            &&& e.errors@ == validation_errors(input, now)
        },
        Err(_) => false,
    }
}

/// Validates `input` at `now` and, when it is sound, builds the record to
/// store under `slug`, created at `now`.
pub fn prepare_shorten(input: ShortenURLInput, slug: String, now: Timestamp) -> (r: Result<
    UrlItem,
    AppError,
>)
    requires
        window_fits(now),
    ensures
        shorten_outcome(input, slug@, now, r),
{
    match input.validate(now) {
        Ok(()) => Ok(input.to_url_item(slug, now)),
        Err(e) => Err(AppError::ValidationError(e)),
    }
}

/// The first half of a create request: reads the clock, draws a fresh slug
/// and validates; on success returns the record to store.  A target that is
/// not a URL, or is too long, is always rejected; a sound target with no
/// expiration date is always accepted.
pub fn create_shorten(input: ShortenURLInput) -> (r: Result<UrlItem, AppError>)
    ensures
        r is Ok ==> is_slug(r->Ok_0.slug@),
        r is Ok ==> r->Ok_0.created_at.is_clock_reading(),
        r is Ok ==> shorten_outcome(input, r->Ok_0.slug@, r->Ok_0.created_at, r),
        r is Err ==> exists|now: Timestamp, slug: Seq<char>|
            now.is_clock_reading() && #[trigger] shorten_outcome(input, slug, now, r),
        !url_is_valid(input.url@) || input.url@.len() > MAX_URL_LEN ==> r is Err,
        url_is_valid(input.url@) && input.url@.len() <= MAX_URL_LEN && input.expiration_date is None
            ==> r is Ok,
{
    let now = crate::time::now();
    let slug = new_slug();
    let ghost slug_view = slug@;
    let r = prepare_shorten(input, slug, now);
    assert(shorten_outcome(input, slug_view, now, r));
    r
}

/// The second half of a create request: once the store has answered the
/// write of `item`, the response for the record, or the store's failure.
pub fn finish_shorten(item: UrlItem, stored: Result<(), AppError>) -> (r: Result<
    ShortenedUrlOutput,
    AppError,
>)
    ensures
        match stored {
            Ok(()) => r is Ok && r->Ok_0.describes(item),
            Err(e) => r == Err::<ShortenedUrlOutput, AppError>(e),
        },
{
    match stored {
        Ok(()) => Ok(ShortenedUrlOutput::from_item(item)),
        Err(e) => Err(e),
    }
}

/// The fetch operation, given the store's answer for the slug: the
/// response for a record, `NotFound` when there is none, or the store's
/// failure.
pub fn get_shorten(found: Result<Option<UrlItem>, AppError>) -> (r: Result<
    ShortenedUrlOutput,
    AppError,
>)
    ensures
        match found {
            Ok(Some(item)) => r is Ok && r->Ok_0.describes(item),
            Ok(None) => r matches Err(AppError::NotFound),
            Err(e) => r == Err::<ShortenedUrlOutput, AppError>(e),
        },
{
    match found {
        Ok(Some(item)) => Ok(ShortenedUrlOutput::from_item(item)),
        Ok(None) => Err(AppError::NotFound),
        Err(e) => Err(e),
    }
}

/// The redirect operation, given the store's answer for the slug: to the
/// record's target, permanently when the record asks for it; a missing
/// record sends the client temporarily to the service root.
pub fn redirect_shorten(found: Result<Option<UrlItem>, AppError>) -> (r: Result<
    Redirect,
    AppError,
>)
    ensures
        match found {
            Ok(Some(item)) => {
                &&& r is Ok
                &&& r->Ok_0.location@ == item.url@
                &&& r->Ok_0.permanent == item.permanent_redirect
            },
            Ok(None) => r is Ok && r->Ok_0.location@ == seq!['/'] && !r->Ok_0.permanent,
            Err(e) => r == Err::<Redirect, AppError>(e),
        },
{
    match found {
        Ok(Some(item)) => Ok(Redirect { location: item.url, permanent: item.permanent_redirect }),
        Ok(None) => {
            let location = "/".to_owned();
            proof {
                reveal_strlit("/");
            }
            Ok(Redirect { location, permanent: false })
        },
        Err(e) => Err(e),
    }
}

/// The liveness answer of the service root.
pub fn index() -> (r: String)
    ensures
        r@ == seq!['H', 'e', 'l', 'l', 'o', ' ', 'W', 'o', 'r', 'l', 'd', '!'],
{
    let r = "Hello World!".to_owned();
    proof {
        reveal_strlit("Hello World!");
    }
    r
}

} // verus!
