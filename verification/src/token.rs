//! Extraction of a bearer token from an `Authorization` header value.
//!
//! The parsing is deliberately tolerant: a literal `"Bearer "` prefix is
//! stripped when present, and otherwise the raw header value is used as the
//! token. A malformed scheme is never a hard failure here; such a value
//! simply fails validation downstream.

use vstd::prelude::*;

verus! {

/// The header scheme prefix that precedes a bearer token.
pub open spec fn spec_bearer_prefix() -> Seq<char> {
    "Bearer "@
}

/// Whether a header value begins with the literal `"Bearer "` scheme.
pub open spec fn spec_has_bearer_prefix(h: Seq<char>) -> bool {
    h.len() >= spec_bearer_prefix().len() && h.subrange(
        0,
        spec_bearer_prefix().len() as int,
    ) == spec_bearer_prefix()
}

/// The token a header value yields: the remainder after a literal
/// `"Bearer "` prefix, or the whole value when no such prefix is present.
pub open spec fn spec_token_of(h: Seq<char>) -> Seq<char> {
    if spec_has_bearer_prefix(h) {
        h.subrange(spec_bearer_prefix().len() as int, h.len() as int)
    } else {
        h
    }
}

/// Extracts the bearer token from an `Authorization` header value.
pub fn token_of_header(h: &str) -> (t: String)
    ensures
        t@ == spec_token_of(h@),
{
    proof {
        reveal_strlit("Bearer ");
    }
    let n: usize = h.unicode_len();
    if n >= 7 && h.get_char(0) == 'B' && h.get_char(1) == 'e' && h.get_char(2) == 'a' && h.get_char(
        3,
    ) == 'r' && h.get_char(4) == 'e' && h.get_char(5) == 'r' && h.get_char(6) == ' ' {
        proof {
            assert(h@.subrange(0, 7) =~= spec_bearer_prefix());
        }
        let rest: &str = h.substring_char(7, n);
        rest.to_owned()
    } else {
        proof {
            if spec_has_bearer_prefix(h@) {
                assert(h@[0] == spec_bearer_prefix()[0]);
                assert(h@[1] == spec_bearer_prefix()[1]);
                assert(h@[2] == spec_bearer_prefix()[2]);
                assert(h@[3] == spec_bearer_prefix()[3]);
                assert(h@[4] == spec_bearer_prefix()[4]);
                assert(h@[5] == spec_bearer_prefix()[5]);
                assert(h@[6] == spec_bearer_prefix()[6]);
            }
        }
        h.to_owned()
    }
}

} // verus!
