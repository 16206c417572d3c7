//! Byte-level text helpers: substring search, as `str::contains`
//! performs it, and truncation of a string to a byte budget without
//! splitting a character's encoding.

use vstd::prelude::*;

use vstd::slice::slice_index_get;
use vstd::string::StringSliceAdditionalSpecFns;
use vstd::utf8::{encode_utf8, is_char_boundary};

verus! {

broadcast use vstd::utf8::group_utf8_lib;

/// `needle` occurs as a contiguous run of bytes inside `hay` (an empty
/// needle occurs in every haystack).
pub open spec fn bytes_contain(hay: Seq<u8>, needle: Seq<u8>) -> bool {
    exists|i: int|
        0 <= i <= hay.len() - needle.len() && #[trigger] hay.subrange(i, i + needle.len())
            == needle
}

/// Whether `needle`'s bytes stand at position `at` of `hay`.
fn bytes_match_at(hay: &[u8], needle: &[u8], at: usize) -> (r: bool)
    requires
        at + needle@.len() <= hay@.len(),
    ensures
        r == (hay@.subrange(at as int, at + needle@.len()) == needle@),
{
    let n = needle.len();
    let hay_len = hay.len();
    let mut j: usize = 0;
    while j < n
        invariant
            j <= n,
            n == needle@.len(),
            hay_len == hay@.len(),
            at + n <= hay@.len(),
            forall|t: int| 0 <= t < j ==> hay@[at + t] == needle@[t],
        decreases n - j,
    {
        if *slice_index_get(hay, at + j) != *slice_index_get(needle, j) {
            proof {
                assert(hay@.subrange(at as int, at + needle@.len())[j as int] == hay@[at + j]);
            }
            return false;
        }
        j += 1;
    }
    proof {
        assert(hay@.subrange(at as int, at + needle@.len()) =~= needle@);
    }
    true
}

/// The byte-level substring test that `str::contains` performs: whether
/// `needle`'s encoding occurs anywhere in `hay`'s.
pub fn str_contains(hay: &str, needle: &str) -> (r: bool)
    ensures
        r == bytes_contain(hay.spec_bytes(), needle.spec_bytes()),
{
    let h = hay.as_bytes();
    let n = needle.as_bytes();
    if n.len() > h.len() {
        return false;
    }
    if n.len() == 0 {
        proof {
            let hb = hay.spec_bytes();
            let nb = needle.spec_bytes();
            assert(hb.subrange(0, 0 + nb.len() as int) =~= nb);
            assert(bytes_contain(hb, nb));
        }
        return true;
    }
    let h_len = h.len();
    let last = h_len - n.len();
    let mut i: usize = 0;
    while i <= last
        invariant
            i <= last + 1,
            0 < n@.len(),
            h_len == h@.len(),
            last == h@.len() - n@.len(),
            h@ == hay.spec_bytes(),
            n@ == needle.spec_bytes(),
            forall|s: int| 0 <= s < i ==> #[trigger] h@.subrange(s, s + n@.len()) != n@,
        decreases last + 1 - i,
    {
        if bytes_match_at(h, n, i) {
            return true;
        }
        i += 1;
    }
    false
}

/// `prefix` is what is left of `full` after cutting it down to at most
/// `limit` bytes at the largest character boundary that fits: the whole
/// string if its encoding has at most `limit` bytes, else the longest
/// prefix of whole characters whose encoding fits in `limit` bytes.
pub open spec fn is_bounded_prefix(full: Seq<char>, prefix: Seq<char>, limit: int) -> bool {
    let bytes = encode_utf8(full);
    let cap = if limit < bytes.len() {
        limit
    } else {
        bytes.len() as int
    };
    exists|m: int|
        {
            &&& 0 <= m <= cap
            &&& is_char_boundary(bytes, m)
            &&& forall|j: int| m < j <= cap ==> !is_char_boundary(bytes, j)
            &&& encode_utf8(prefix) == bytes.subrange(0, m)
        }
}

/// Cuts `s` down to at most `limit` bytes, at the largest character
/// boundary that fits.
#[verifier::loop_isolation(false)]
pub fn prefix_upto(s: &str, limit: usize) -> (r: String)
    ensures
        is_bounded_prefix(s@, r@, limit as int),
{
    proof {
        vstd::utf8::encode_utf8_valid_utf8(s@);
    }
    let len = s.as_bytes().len();
    let ghost bytes = s.spec_bytes();
    let ghost cap: int = if (limit as int) < bytes.len() {
        limit as int
    } else {
        bytes.len() as int
    };
    let mut m: usize = if limit < len {
        limit
    } else {
        len
    };
    while !s.is_char_boundary(m)
        invariant
            m <= cap,
            forall|j: int| m < j <= cap ==> !is_char_boundary(bytes, j),
        decreases m,
    {
        proof {
            assert(is_char_boundary(bytes, 0));
        }
        m = m - 1;
    }
    let (prefix, _) = s.split_at(m);
    let r = prefix.to_owned();
    proof {
        assert(encode_utf8(r@) == encode_utf8(prefix@));
        assert(encode_utf8(prefix@) =~= bytes.subrange(0, m as int));
    }
    r
}

} // verus!
