//! The create request, the stored record and the response, and the
//! conversions between them.

use vstd::prelude::*;
use crate::time::{Timestamp, decode_epoch_seconds, has_calendar_date};

verus! {

/// A request to shorten `url`.
#[derive(Clone, Debug, PartialEq, Eq)]
pub struct ShortenURLInput {
    /// The target; it must be an absolute URL of at most 256 characters.
    pub url: String,
    /// When the mapping may be evicted; `None` keeps it indefinitely.
    pub expiration_date: Option<Timestamp>,
    /// Whether resolving the slug redirects permanently; `None` means no.
    pub permanent_redirect: Option<bool>,
}

/// A stored mapping from a slug to its target.
#[derive(Clone, Debug, PartialEq, Eq)]
pub struct UrlItem {
    pub slug: String,
    pub url: String,
    pub permanent_redirect: bool,
    /// Epoch second after which the store may evict the record.
    pub ttl: Option<i64>,
    pub created_at: Timestamp,
}

/// What the create and fetch operations answer for a mapping.
#[derive(Clone, Debug, PartialEq, Eq)]
pub struct ShortenedUrlOutput {
    pub slug: String,
    pub url: String,
    pub expiration_date: Option<Timestamp>,
    pub created_at: Timestamp,
    pub permanent_redirect: bool,
}

/// The redirect choice of a request: `None` counts as a temporary redirect.
pub open spec fn redirect_flag(p: Option<bool>) -> bool {
    match p {
        Some(b) => b,
        None => false,
    }
}

/// The stored expiry of an expiration date: its whole epoch seconds.
pub open spec fn ttl_of(e: Option<Timestamp>) -> Option<i64> {
    match e {
        Some(t) => Some(t.secs),
        None => None,
    }
}

/// The expiration date read back from a stored expiry; a value with no
/// calendar date reads as no expiration.
pub open spec fn decoded_ttl(ttl: Option<i64>) -> Option<Timestamp> {
    match ttl {
        Some(s) => if has_calendar_date(s as int) {
            Some(Timestamp { secs: s, nanos: 0 })
        } else {
            None
        },
        None => None,
    }
}

impl ShortenURLInput {
    /// Every instant in the request is well formed.
    pub open spec fn wf(self) -> bool {
        match self.expiration_date {
            Some(e) => e.wf(),
            None => true,
        }
    }

    /// `item` is the record that this request yields under `slug`, created
    /// at `now`.
    pub open spec fn builds(self, slug: Seq<char>, now: Timestamp, item: UrlItem) -> bool {
        &&& item.slug@ == slug
        &&& item.url@ == self.url@
        &&& item.permanent_redirect == redirect_flag(self.permanent_redirect)
        &&& item.ttl == ttl_of(self.expiration_date)
        &&& item.created_at == now
    }

    /// The record to store for this request under `slug`, created at `now`.
    pub fn to_url_item(self, slug: String, now: Timestamp) -> (r: UrlItem)
        ensures
            self.builds(slug@, now, r),
    {
        let permanent_redirect = match self.permanent_redirect {
            Some(b) => b,
            None => false,
        };
        let ttl = match self.expiration_date {
            Some(t) => Some(t.secs),
            None => None,
        };
        UrlItem { slug, url: self.url, permanent_redirect, ttl, created_at: now }
    }
}

impl ShortenedUrlOutput {
    /// `self` is the response for the stored record `item`.
    pub open spec fn describes(self, item: UrlItem) -> bool {
        &&& self.slug@ == item.slug@
        &&& self.url@ == item.url@
        &&& self.expiration_date == decoded_ttl(item.ttl)
        &&& self.created_at == item.created_at
        &&& self.permanent_redirect == item.permanent_redirect
    }

    /// The response for `value` once its expiry has been read back as
    /// `expiration_date`.
    pub fn with_expiration(value: UrlItem, expiration_date: Option<Timestamp>) -> (r: Self)
        ensures
            r.slug@ == value.slug@,
            r.url@ == value.url@,
            r.expiration_date == expiration_date,
            r.created_at == value.created_at,
            r.permanent_redirect == value.permanent_redirect,
    {
        ShortenedUrlOutput {
            slug: value.slug,
            url: value.url,
            expiration_date,
            created_at: value.created_at,
            permanent_redirect: value.permanent_redirect,
        }
    }

    /// The response for the stored record `value`.
    pub fn from_item(value: UrlItem) -> (r: Self)
        ensures
            r.describes(value),
    {
        let expiration_date = match value.ttl {
            Some(s) => decode_epoch_seconds(s),
            None => None,
        };
        Self::with_expiration(value, expiration_date)
    }
}

} // verus!
