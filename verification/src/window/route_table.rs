//! The table of windows, keyed by window id.
//!
//! The table is a hash map with the Fx hasher of the `rustc_hash` crate.
//! What it holds is spoken of through the map's view, a `Map` from ids to
//! values. The functions of this file are not verified: each states what the
//! map operation in its body does to that view.

use rustc_hash::FxBuildHasher;
use rustc_hash::FxHashMap;
use vstd::prelude::*;

verus! {

/// `rustc_hash::FxBuildHasher`, the hasher factory of the table. Nothing is
/// said about what is inside it.
#[verifier::external_type_specification]
#[verifier::external_body]
pub struct ExFxBuildHasher(FxBuildHasher);

/// `HashMap::get` on an `FxHashMap`: the value stored under `id`, if there
/// is one.
#[verifier::external_body]
pub(crate) fn table_get<V>(table: &FxHashMap<u64, V>, id: u64) -> (found: Option<&V>)
    ensures
        found is Some <==> table@.contains_key(id),
        found matches Some(value) ==> *value == table@[id],
{
    table.get(&id)
}

/// `HashMap::get_mut` on an `FxHashMap`: a mutable borrow of the value
/// stored under `id`, if there is one. No other entry changes, and the entry
/// under `id` ends as the borrow leaves it.
#[verifier::external_body]
pub(crate) fn table_get_mut<V>(table: &mut FxHashMap<u64, V>, id: u64) -> (found: Option<&mut V>)
    ensures
        found is Some <==> old(table)@.contains_key(id),
        found is None ==> final(table)@ == old(table)@,
        found is Some ==> *found.unwrap() == old(table)@[id] && final(table)@ == old(table)@.insert(
            id,
            *final(found.unwrap()),
        ),
{
    table.get_mut(&id)
}

/// `HashMap::insert` on an `FxHashMap`: afterwards `id` maps to `value` and
/// every other entry is as before. Returns the value that `id` mapped to
/// before, if there was one.
#[verifier::external_body]
pub(crate) fn table_insert<V>(table: &mut FxHashMap<u64, V>, id: u64, value: V) -> (previous:
    Option<V>)
    ensures
        final(table)@ == old(table)@.insert(id, value),
        previous is Some <==> old(table)@.contains_key(id),
        previous matches Some(replaced) ==> replaced == old(table)@[id],
{
    table.insert(id, value)
}

/// The first key that `HashMap::keys` yields on an `FxHashMap`. Which key
/// comes first is left open: it is some key of the table, and there is none
/// exactly if the table is empty.
#[verifier::external_body]
pub(crate) fn table_first_key<V>(table: &FxHashMap<u64, V>) -> (first: Option<&u64>)
    ensures
        first is None <==> table@.dom() =~= Set::<u64>::empty(),
        first matches Some(id) ==> table@.contains_key(*id),
{
    table.keys().next()
}

} // verus!
