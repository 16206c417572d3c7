//! The decision core of policy loading: which files in a policy
//! directory are compiled policies, and the name each one is registered
//! under.
//!
//! A compiled policy is a file named `<stem>.wasm`; it is registered
//! under its stem.  Reading the directory and handing the bytes to an
//! evaluation engine is I/O and lives outside this library; this module
//! decides, from plain file names, what gets loaded.

use vstd::prelude::*;

use vstd::slice::slice_index_get;
use vstd::string::StringSliceAdditionalSpecFns;
use vstd::utf8::{decode_utf8, encode_utf8, is_char_boundary, is_continuation_byte};

verus! {

/// The five bytes of the `.wasm` suffix.
pub open spec fn wasm_suffix() -> Seq<u8> {
    seq![46u8, 119u8, 97u8, 115u8, 109u8]
}

/// The byte sequence ends with `.wasm`.
pub open spec fn ends_with_wasm(bytes: Seq<u8>) -> bool {
    bytes.len() >= 5 && bytes.subrange(bytes.len() - 5, bytes.len() as int) == wasm_suffix()
}

/// The policy name a file registers under: its stem, when the file name
/// ends in `.wasm`; nothing otherwise.
pub open spec fn spec_wasm_stem(name: Seq<char>) -> Option<Seq<char>> {
    let bytes = encode_utf8(name);
    if ends_with_wasm(bytes) {
        Some(decode_utf8(bytes.subrange(0, bytes.len() - 5)))
    } else {
        None
    }
}

/// Decides whether `file_name` is a compiled policy and, if so, under
/// what name it loads.
pub fn wasm_policy_name(file_name: &str) -> (r: Option<String>)
    ensures
        match spec_wasm_stem(file_name@) {
            Some(stem) => r matches Some(s) && s@ == stem,
            None => r is None,
        },
{
    let b = file_name.as_bytes();
    let blen = b.len();
    if blen < 5 {
        return None;
    }
    let suffix_ok = *slice_index_get(b, blen - 5) == 46 && *slice_index_get(b, blen - 4) == 119
        && *slice_index_get(b, blen - 3) == 97 && *slice_index_get(b, blen - 2) == 115
        && *slice_index_get(b, blen - 1) == 109;
    if !suffix_ok {
        proof {
            assert(!ends_with_wasm(b@)) by {
                if ends_with_wasm(b@) {
                    assert(b@.subrange(blen - 5, blen as int)[0] == b@[blen - 5]);
                    assert(b@.subrange(blen - 5, blen as int)[1] == b@[blen - 4]);
                    assert(b@.subrange(blen - 5, blen as int)[2] == b@[blen - 3]);
                    assert(b@.subrange(blen - 5, blen as int)[3] == b@[blen - 2]);
                    assert(b@.subrange(blen - 5, blen as int)[4] == b@[blen - 1]);
                }
            }
        }
        return None;
    }
    proof {
        assert(b@.subrange(blen - 5, blen as int) =~= wasm_suffix());
        vstd::utf8::encode_utf8_valid_utf8(file_name@);
        vstd::utf8::is_char_boundary_iff_not_is_continuation_byte(b@, blen - 5);
        assert(!is_continuation_byte(46u8));
    }
    let (stem, _) = file_name.split_at(blen - 5);
    let r = stem.to_owned();
    proof {
        vstd::utf8::encode_utf8_decode_utf8(stem@);
        assert(encode_utf8(stem@) =~= b@.subrange(0, blen - 5));
    }
    Some(r)
}

/// The names, in order, under which a list of files loads: one stem per
/// `.wasm` file, other files skipped.
pub open spec fn spec_wasm_stems(names: Seq<Seq<char>>) -> Seq<Seq<char>>
    decreases names.len(),
{
    if names.len() == 0 {
        Seq::empty()
    } else {
        let rest = spec_wasm_stems(names.drop_last());
        match spec_wasm_stem(names.last()) {
            Some(s) => rest.push(s),
            None => rest,
        }
    }
}

/// Decides, for a directory listing, which files load as policies and
/// under what names, in the listing's order.  The number of policies a
/// load reports is the length of this list.
#[verifier::loop_isolation(false)]
pub fn list_wasm_policies(files: &Vec<String>) -> (r: Vec<String>)
    ensures
        r@.map_values(|s: String| s@) == spec_wasm_stems(files@.map_values(|f: String| f@)),
{
    let mut result: Vec<String> = Vec::new();
    let mut i: usize = 0;
    while i < files.len()
        invariant
            i <= files@.len(),
            result@.map_values(|s: String| s@) == spec_wasm_stems(
                files@.take(i as int).map_values(|f: String| f@),
            ),
        decreases files@.len() - i,
    {
        let ghost prev = files@.take(i as int).map_values(|f: String| f@);
        match wasm_policy_name(files[i].as_str()) {
            Some(name) => {
                result.push(name);
            },
            None => {},
        }
        proof {
            let cur = files@.take(i + 1).map_values(|f: String| f@);
            assert(cur.drop_last() =~= prev);
            assert(cur.last() == files@[i as int]@);
        }
        i += 1;
    }
    proof {
        assert(files@.take(files@.len() as int) =~= files@);
    }
    result
}

} // verus!
