//! Short identifiers for stored mappings.

use vstd::prelude::*;

verus! {

/// Number of characters in a slug.
pub const SLUG_LEN: usize = 10;

/// A character of the URL-safe alphabet: `_`, `-`, digits and ASCII letters.
pub open spec fn is_url_safe_char(c: char) -> bool {
    ||| c == '_'
    ||| c == '-'
    ||| ('0' <= c && c <= '9')
    ||| ('a' <= c && c <= 'z')
    ||| ('A' <= c && c <= 'Z')
}

/// A well-formed slug: exactly `SLUG_LEN` URL-safe characters.
pub open spec fn is_slug(s: Seq<char>) -> bool {
    &&& s.len() == SLUG_LEN
    &&& forall|i: int| 0 <= i < s.len() ==> is_url_safe_char(#[trigger] s[i])
}

/// Relies on nanoid's `format` with its default random source and its
/// `SAFE` alphabet (the expansion of `nanoid!(10)`): it pushes characters of
/// that 64-letter ASCII alphabet until the string holds the asked length.
/// Which characters come out is random.
#[verifier::external_body]
pub(crate) fn new_slug() -> (r: String)
    ensures
        is_slug(r@),
{
    nanoid::format(nanoid::rngs::default, &nanoid::alphabet::SAFE, SLUG_LEN)
}

} // verus!
