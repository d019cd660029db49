//! Endpoint addresses: the constraint a fetch endpoint must meet. A
//! well-formed absolute URL here is a non-empty alphabetic scheme, the
//! separator `://`, and a non-empty remainder.

use vstd::prelude::*;

verus! {

/// A character a scheme may consist of.
pub open spec fn is_scheme_char(c: char) -> bool {
    ('a' <= c && c <= 'z') || ('A' <= c && c <= 'Z')
}

/// A well-formed absolute URL: `<scheme>://<rest>` with a non-empty
/// alphabetic scheme and a non-empty rest.
pub open spec fn is_absolute_url(s: Seq<char>) -> bool {
    exists|k: int|
        1 <= k && k + 3 < s.len() && (forall|j: int| 0 <= j < k ==> is_scheme_char(#[trigger] s[j]))
            && (#[trigger] s[k]) == ':' && s[k + 1] == '/' && s[k + 2] == '/'
}

/// Decides [`is_absolute_url`].
pub fn is_absolute_url_str(s: &str) -> (r: bool)
    ensures
        r == is_absolute_url(s@),
{
    let n = s.unicode_len();
    let mut p: usize = 0;
    let mut stop = false;
    while !stop && p < n
        invariant
            n == s@.len(),
            p <= n,
            forall|j: int| 0 <= j < p ==> is_scheme_char(#[trigger] s@[j]),
            stop ==> p < n && !is_scheme_char(s@[p as int]),
        decreases n - p + (if stop {
            0int
        } else {
            1
        }),
    {
        let c = s.get_char(p);
        if ('a' <= c && c <= 'z') || ('A' <= c && c <= 'Z') {
            p = p + 1;
        } else {
            stop = true;
        }
    }
    let well_formed = p >= 1 && n - p > 3 && s.get_char(p) == ':' && s.get_char(p + 1) == '/'
        && s.get_char(p + 2) == '/';
    proof {
        if well_formed {
            assert(is_absolute_url(s@)) by {
                let k = p as int;
                assert(1 <= k && k + 3 < s@.len() && (forall|j: int|
                    0 <= j < k ==> is_scheme_char(#[trigger] s@[j])) && s@[k] == ':' && s@[k + 1]
                    == '/' && s@[k + 2] == '/');
            }
        } else {
            assert(!is_absolute_url(s@)) by {
                if is_absolute_url(s@) {
                    let k = choose|k: int|
                        1 <= k && k + 3 < s@.len() && (forall|j: int|
                            0 <= j < k ==> is_scheme_char(#[trigger] s@[j])) && (#[trigger] s@[k])
                            == ':' && s@[k + 1] == '/' && s@[k + 2] == '/';
                    if k < p {
                        assert(is_scheme_char(s@[k]));
                        assert(false);
                    } else if k > p {
                        assert(p < s@.len() ==> is_scheme_char(s@[p as int]));
                        assert(false);
                    } else {
                        assert(false);
                    }
                }
            }
        }
    }
    well_formed
}

} // verus!
