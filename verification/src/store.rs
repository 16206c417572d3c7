//! Trusted boundary around the concurrent hash map that backs the cache.
//!
//! The cache keeps its entries in a `dashmap::DashMap`, a sharded hash map
//! with per-key atomic operations.  Verus does not read dashmap, so this
//! module declares the map type, names what a map holds with the
//! uninterpreted function [`contents`], and wraps each map operation the
//! cache calls in a function whose contract states, over [`contents`],
//! what dashmap's source shows the operation does.
//!
//! An entry is carried as a plain triple: the stored value, the absolute
//! expiry instant, and the last-access counter (both in nanoseconds since
//! the owning cache was created).

use vstd::prelude::*;

use dashmap::DashMap;

verus! {

#[verifier::external_type_specification]
#[verifier::external_body]
#[verifier::reject_recursive_types(K)]
#[verifier::reject_recursive_types(V)]
#[verifier::reject_recursive_types(S)]
pub struct ExDashMap<K, V, S>(DashMap<K, V, S>);

/// What the store holds: each present key mapped to its entry, as the
/// triple (value, expires_at, last_accessed).
pub uninterp spec fn contents(m: DashMap<String, (String, u64, u64)>) -> Map<
    Seq<char>,
    (Seq<char>, u64, u64),
>;

/// An empty store model.
pub open spec fn empty_contents() -> Map<Seq<char>, (Seq<char>, u64, u64)> {
    Map::empty()
}

/// The mathematical value of one stored entry.
pub open spec fn entry_view(t: (String, u64, u64)) -> (Seq<char>, u64, u64) {
    (t.0@, t.1, t.2)
}

/// Relies on `DashMap::with_capacity`: a freshly allocated map holds nothing.
#[verifier::external_body]
pub fn store_new(capacity: usize) -> (r: DashMap<String, (String, u64, u64)>)
    ensures
        contents(r) == empty_contents(),
{
    DashMap::with_capacity(capacity)
}

/// Relies on `DashMap::len`: the number of key-value pairs in the map.
#[verifier::external_body]
pub fn store_len(m: &DashMap<String, (String, u64, u64)>) -> (r: usize)
    ensures
        r == contents(*m).dom().len(),
{
    m.len()
}

/// Relies on `DashMap::contains_key`: whether the key is present.
#[verifier::external_body]
pub fn store_contains(m: &DashMap<String, (String, u64, u64)>, key: &str) -> (r: bool)
    ensures
        r == contents(*m).dom().contains(key@),
{
    m.contains_key(key)
}

/// Relies on `DashMap::get`: the entry under the key, if any, copied out.
#[verifier::external_body]
pub fn store_get(m: &DashMap<String, (String, u64, u64)>, key: &str) -> (r: Option<
    (String, u64, u64),
>)
    ensures
        match r {
            Some(t) => contents(*m).dom().contains(key@) && entry_view(t) == contents(*m)[key@],
            None => !contents(*m).dom().contains(key@),
        },
{
    m.get(key).map(|e| e.value().clone())
}

/// Relies on `DashMap::insert`: maps the key to the new entry, replacing
/// any entry previously under it.
#[verifier::external_body]
pub fn store_insert(
    m: &mut DashMap<String, (String, u64, u64)>,
    key: String,
    value: String,
    expires_at: u64,
    last_accessed: u64,
)
    ensures
        contents(*final(m)) == contents(*old(m)).insert(
            key@,
            (value@, expires_at, last_accessed),
        ),
{
    m.insert(key, (value, expires_at, last_accessed));
}

/// Relies on `DashMap::remove`: takes the entry under the key out of the
/// map and returns it, if it was present.
#[verifier::external_body]
pub fn store_remove(m: &mut DashMap<String, (String, u64, u64)>, key: &str) -> (r: Option<
    (String, u64, u64),
>)
    ensures
        contents(*final(m)) == contents(*old(m)).remove(key@),
        match r {
            Some(t) => contents(*old(m)).dom().contains(key@) && entry_view(t) == contents(
                *old(m),
            )[key@],
            None => !contents(*old(m)).dom().contains(key@),
        },
{
    m.remove(key).map(|kv| kv.1)
}

/// Relies on `DashMap::clear`: removes every key-value pair.
#[verifier::external_body]
pub fn store_clear(m: &mut DashMap<String, (String, u64, u64)>)
    ensures
        contents(*final(m)) == empty_contents(),
{
    m.clear();
}

/// Relies on `DashMap::iter`: one pass over the map yields each present
/// key exactly once, with its entry; the order is unspecified.  The value
/// string is left behind and each item is reduced to
/// (key, expires_at, last_accessed).
#[verifier::external_body]
pub fn store_entries(m: &DashMap<String, (String, u64, u64)>) -> (r: Vec<(String, u64, u64)>)
    ensures
        r@.len() == contents(*m).dom().len(),
        forall|i: int|
            #![trigger r@[i]]
            0 <= i < r@.len() ==> {
                &&& contents(*m).dom().contains(r@[i].0@)
                &&& r@[i].1 == contents(*m)[r@[i].0@].1
                &&& r@[i].2 == contents(*m)[r@[i].0@].2
            },
        forall|i: int, j: int| 0 <= i < j < r@.len() ==> r@[i].0@ != r@[j].0@,
        forall|k: Seq<char>|
            #[trigger] contents(*m).dom().contains(k) ==> exists|i: int|
                0 <= i < r@.len() && r@[i].0@ == k,
{
    m.iter().map(|e| (e.key().clone(), e.value().1, e.value().2)).collect()
}

} // verus!
