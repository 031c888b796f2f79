//! The table from an attribute's name to its slot.
//!
//! The table is a `HashMap` of std that hashes with `fnv::FnvHasher`. What
//! it holds has a name here, `attribute_slots`, and the functions that make
//! and fill it are believed to do to that content what `HashMap` documents.

use vstd::prelude::*;
use core::hash::BuildHasherDefault;
use fnv::FnvHasher;
use std::collections::HashMap;

verus! {

/// `fnv::FnvHasher`: the state of one FNV-1a hash. Opaque here.
#[verifier::external_type_specification]
#[verifier::external_body]
pub struct ExFnvHasher(fnv::FnvHasher);

/// `core::hash::BuildHasherDefault`: makes hashers by `Default`. Opaque here.
#[verifier::external_type_specification]
#[verifier::external_body]
#[verifier::reject_recursive_types(H)]
pub struct ExBuildHasherDefault<H>(core::hash::BuildHasherDefault<H>);

/// What a table holds: for each name in it, the slot recorded under it.
pub uninterp spec fn attribute_slots(
    table: HashMap<String, i32, BuildHasherDefault<FnvHasher>>,
) -> Map<Seq<char>, i32>;

/// The content of a table without entries.
pub open spec fn no_slots() -> Map<Seq<char>, i32> {
    Map::empty()
}

/// `BuildHasherDefault::<FnvHasher>::default`: the maker of FNV hashers.
/// It has no state, and nothing is claimed of it.
#[verifier::external_body]
pub(crate) fn fnv_hashers() -> BuildHasherDefault<FnvHasher> {
    BuildHasherDefault::<FnvHasher>::default()
}

/// `HashMap::with_hasher`: a table that hashes with the given maker of
/// hashers and holds no entry.
#[verifier::external_body]
pub(crate) fn empty_table(
    hashers: BuildHasherDefault<FnvHasher>,
) -> (table: HashMap<String, i32, BuildHasherDefault<FnvHasher>>)
    ensures
        attribute_slots(table) == no_slots(),
{
    HashMap::with_hasher(hashers)
}

/// `HashMap::insert`: afterwards the table holds `slot` under `name`, in
/// place of what it held under that name before, and every other entry as
/// before.
#[verifier::external_body]
pub(crate) fn record_slot(
    table: &mut HashMap<String, i32, BuildHasherDefault<FnvHasher>>,
    name: String,
    slot: i32,
)
    ensures
        attribute_slots(*final(table)) == attribute_slots(*old(table)).insert(name@, slot),
{
    table.insert(name, slot);
}

/// `HashMap::get`: the slot that the table holds under `name`, or nothing
/// where it holds none.
#[verifier::external_body]
pub(crate) fn slot_of<'a>(
    table: &'a HashMap<String, i32, BuildHasherDefault<FnvHasher>>,
    name: &str,
) -> (slot: Option<&'a i32>)
    ensures
        attribute_slots(*table).contains_key(name@) ==> slot == Some(&attribute_slots(*table)[name@]),
        !attribute_slots(*table).contains_key(name@) ==> slot is None,
{
    table.get(name)
}

} // verus!
