//! Syntactic well-formedness of the webhook URL.
//!
//! The notifier only ever issues an HTTP POST, so the target must be an HTTP
//! or HTTPS URL. The criterion here is syntactic: an `http://` or `https://`
//! scheme, a host part that starts with at least one character that could
//! begin an authority, and visible ASCII throughout.

use vstd::prelude::*;
use crate::headers::bytes_of;

verus! {

/// A byte allowed anywhere in a URL: visible ASCII.
pub open spec fn is_url_byte(b: u8) -> bool {
    33 <= b && b <= 126
}

/// The bytes of `http://`.
pub open spec fn http_scheme() -> Seq<u8> {
    seq![104u8, 116u8, 116u8, 112u8, 58u8, 47u8, 47u8]
}

/// The bytes of `https://`.
pub open spec fn https_scheme() -> Seq<u8> {
    seq![104u8, 116u8, 116u8, 112u8, 115u8, 58u8, 47u8, 47u8]
}

/// Whether the URL starts with the `http://` scheme.
pub open spec fn has_http_scheme(s: Seq<u8>) -> bool {
    s.len() >= 7 && s.take(7) == http_scheme()
}

/// Whether the URL starts with the `https://` scheme.
pub open spec fn has_https_scheme(s: Seq<u8>) -> bool {
    s.len() >= 8 && s.take(8) == https_scheme()
}

/// How many bytes the scheme prefix takes.
pub open spec fn scheme_len(s: Seq<u8>) -> int {
    if has_https_scheme(s) {
        8
    } else {
        7
    }
}

/// A byte that may begin the part after the scheme: anything visible except
/// another slash, a query mark or a fragment mark, so that a host is present.
pub open spec fn is_host_start_byte(b: u8) -> bool {
    is_url_byte(b) && b != 47 && b != 63 && b != 35
}

/// A syntactically well-formed HTTP(S) URL.
pub open spec fn valid_url(s: Seq<u8>) -> bool {
    &&& has_http_scheme(s) || has_https_scheme(s)
    &&& s.len() > scheme_len(s)
    &&& is_host_start_byte(s[scheme_len(s)])
    &&& forall|i: int| 0 <= i < s.len() ==> is_url_byte(#[trigger] s[i])
}

fn starts_with_http(b: &[u8]) -> (r: bool)
    ensures
        r == has_http_scheme(b@),
{
    if b.len() < 7 {
        return false;
    }
    let r = b[0] == 104 && b[1] == 116 && b[2] == 116 && b[3] == 112 && b[4] == 58 && b[5] == 47
        && b[6] == 47;
    proof {
        if r {
            assert(b@.take(7) =~= http_scheme());
        } else {
            if has_http_scheme(b@) {
                assert(forall|j: int| 0 <= j < 7 ==> b@[j] == #[trigger] http_scheme()[j]) by {
                    assert(forall|j: int| 0 <= j < 7 ==> b@[j] == #[trigger] b@.take(7)[j]);
                }
                assert(false);
            }
        }
    }
    r
}

fn starts_with_https(b: &[u8]) -> (r: bool)
    ensures
        r == has_https_scheme(b@),
{
    if b.len() < 8 {
        return false;
    }
    let r = b[0] == 104 && b[1] == 116 && b[2] == 116 && b[3] == 112 && b[4] == 115 && b[5] == 58
        && b[6] == 47 && b[7] == 47;
    proof {
        if r {
            assert(b@.take(8) =~= https_scheme());
        } else {
            if has_https_scheme(b@) {
                assert(forall|j: int| 0 <= j < 8 ==> b@[j] == #[trigger] https_scheme()[j]) by {
                    assert(forall|j: int| 0 <= j < 8 ==> b@[j] == #[trigger] b@.take(8)[j]);
                }
                assert(false);
            }
        }
    }
    r
}

/// Whether a string is a syntactically well-formed HTTP(S) URL.
pub fn url_is_valid(s: &str) -> (r: bool)
    ensures
        r == valid_url(bytes_of(s@)),
{
    let b = s.as_bytes();
    assert(b@ == bytes_of(s@));
    let is_https = starts_with_https(b);
    let is_http = starts_with_http(b);
    if !is_http && !is_https {
        return false;
    }
    let k: usize = if is_https {
        8
    } else {
        7
    };
    assert(k == scheme_len(b@));
    if b.len() <= k {
        return false;
    }
    let c = b[k];
    if c == 47 || c == 63 || c == 35 {
        return false;
    }
    let mut i: usize = 0;
    while i < b.len()
        invariant
            b@ == bytes_of(s@),
            0 <= i <= b@.len(),
            k == scheme_len(b@),
            has_http_scheme(b@) || has_https_scheme(b@),
            b@.len() > k,
            b@[k as int] != 47 && b@[k as int] != 63 && b@[k as int] != 35,
            forall|j: int| 0 <= j < i ==> is_url_byte(#[trigger] b@[j]),
        decreases b@.len() - i,
    {
        if b[i] < 33 || b[i] > 126 {
            assert(!is_url_byte(b@[i as int]));
            return false;
        }
        i += 1;
    }
    true
}

} // verus!
