//! The table of registered sessions, a concurrent hash map of the `dashmap` crate from session
//! ids to the places where the sessions are kept.
//!
//! The map is changed through `&mut` only, so no reference into it can be held meanwhile and
//! none of its locks can be waited for.

use std::collections::hash_map::RandomState;

use dashmap::DashMap;
use vstd::prelude::*;

verus! {

/// The map type of the `dashmap` crate, opaque to proofs.
#[verifier::external_type_specification]
#[verifier::external_body]
#[verifier::reject_recursive_types(K)]
#[verifier::reject_recursive_types(V)]
#[verifier::reject_recursive_types(S)]
pub struct ExDashMap<K, V, S>(DashMap<K, V, S>);

/// What the table holds: a place for each registered session id.
pub uninterp spec fn table_contents(table: DashMap<String, usize, RandomState>) -> Map<
    Seq<char>,
    usize,
>;

/// Calls `DashMap::new`, which makes a map without entries.
#[verifier::external_body]
pub(crate) fn table_new() -> (table: DashMap<String, usize, RandomState>)
    ensures
        table_contents(table) == (Map::<Seq<char>, usize>::empty()),
{
    DashMap::new()
}

/// Calls `DashMap::contains_key`, which tells whether the map has an entry for the key.
#[verifier::external_body]
pub(crate) fn table_contains(table: &DashMap<String, usize, RandomState>, id: &str) -> (r: bool)
    ensures
        r == table_contents(*table).contains_key(id@),
{
    table.contains_key(id)
}

/// Calls `DashMap::get`, which finds the entry for the key where there is one, and copies the
/// place out of it.
#[verifier::external_body]
pub(crate) fn table_get(table: &DashMap<String, usize, RandomState>, id: &str) -> (place: Option<
    usize,
>)
    ensures
        place == (if table_contents(*table).contains_key(id@) {
            Some(table_contents(*table)[id@])
        } else {
            None
        }),
{
    table.get(id).map(|entry| *entry.value())
}

/// Calls `DashMap::insert`, which sets the entry for the key and leaves all others as they are.
/// It returns the place that the key had before, where it had one.
#[verifier::external_body]
pub(crate) fn table_insert(
    table: &mut DashMap<String, usize, RandomState>,
    id: String,
    place: usize,
) -> (previous: Option<usize>)
    ensures
        table_contents(*final(table)) == table_contents(*old(table)).insert(id@, place),
        previous == (if table_contents(*old(table)).contains_key(id@) {
            Some(table_contents(*old(table))[id@])
        } else {
            None
        }),
{
    table.insert(id, place)
}

/// Calls `DashMap::remove`, which removes the entry for the key, where there is one, and leaves
/// all others as they are. It returns the place that the key had, where it had one.
#[verifier::external_body]
pub(crate) fn table_remove(
    table: &mut DashMap<String, usize, RandomState>,
    id: &str,
) -> (previous: Option<usize>)
    ensures
        table_contents(*final(table)) == table_contents(*old(table)).remove(id@),
        previous == (if table_contents(*old(table)).contains_key(id@) {
            Some(table_contents(*old(table))[id@])
        } else {
            None
        }),
{
    table.remove(id).map(|entry| entry.1)
}

/// Calls `DashMap::iter`, which yields each entry once, and copies key and place out of each.
/// The order of the entries is not fixed.
#[verifier::external_body]
pub(crate) fn table_entries(table: &DashMap<String, usize, RandomState>) -> (entries: Vec<
    (String, usize),
>)
    ensures
        forall|i: int|
            0 <= i < entries@.len() ==> table_contents(*table).contains_key(
                (#[trigger] entries@[i]).0@,
            ) && table_contents(*table)[entries@[i].0@] == entries@[i].1,
        forall|id: Seq<char>| #[trigger]
            table_contents(*table).contains_key(id) ==> exists|i: int|
                0 <= i < entries@.len() && (#[trigger] entries@[i]).0@ == id,
        forall|i: int, j: int|
            0 <= i < j < entries@.len() ==> (#[trigger] entries@[i]).0@ != (
            #[trigger] entries@[j]).0@,
{
    table.iter().map(|entry| (entry.key().clone(), *entry.value())).collect()
}

} // verus!
