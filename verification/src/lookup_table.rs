//! The planet lookup table: a `rustc_hash::FxHashMap` from a planet's id to
//! its row in the adjacency matrix and its type.
use vstd::prelude::*;
use rustc_hash::{FxBuildHasher, FxHashMap};
use crate::galaxy_file::PlanetType;

verus! {

/// The hash builder of `rustc_hash`'s maps, a unit struct.
#[verifier::external_type_specification]
#[verifier::external_body]
pub struct ExFxBuildHasher(FxBuildHasher);

/// Calls `HashMap::insert` on an `FxHashMap`, whose hasher (`FxHasher`)
/// hashes a `u32` the same way every time. Claimed here: afterwards the key
/// maps to the value and every other key keeps its entry.
#[verifier::external_body]
pub(crate) fn lookup_insert(table: &mut FxHashMap<u32, (u32, PlanetType)>, k: u32, v: (u32, PlanetType))
    ensures
        final(table)@ == old(table)@.insert(k, v),
{
    table.insert(k, v);
}

/// Calls `HashMap::get` on an `FxHashMap` and copies the entry out.
/// Claimed here: the entry of the key if there is one, else `None`.
#[verifier::external_body]
pub(crate) fn lookup_get(table: &FxHashMap<u32, (u32, PlanetType)>, k: u32) -> (r: Option<(u32, PlanetType)>)
    ensures
        r == (if table@.contains_key(k) {
            Some(table@[k])
        } else {
            None::<(u32, PlanetType)>
        }),
{
    table.get(&k).copied()
}

} // verus!
