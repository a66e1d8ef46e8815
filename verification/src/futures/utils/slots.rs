//! The concurrent map that keeps one slot per symbol.
//!
//! A slot is held while one caller reads or replaces what is in it; callers
//! for other symbols go on meanwhile. Whoever holds a slot must let it go
//! before asking the same map for another: the functions of this library
//! hold one slot at a time and never across a call that takes another.

use vstd::prelude::*;

verus! {

/// `dashmap::DashMap`, a map that many callers share and change through a
/// shared reference.
#[verifier::external_type_specification]
#[verifier::external_body]
#[verifier::reject_recursive_types(K)]
#[verifier::reject_recursive_types(V)]
#[verifier::reject_recursive_types(S)]
pub struct ExDashMap<K, V, S>(dashmap::DashMap<K, V, S>);

/// `dashmap::mapref::one::Ref`, the shared hold on one slot of the map.
#[verifier::external_type_specification]
#[verifier::external_body]
#[verifier::reject_recursive_types(K)]
#[verifier::reject_recursive_types(V)]
pub struct ExRef<'a, K, V>(dashmap::mapref::one::Ref<'a, K, V>);

/// `dashmap::mapref::one::RefMut`, the exclusive hold on one slot of the map.
#[verifier::external_type_specification]
#[verifier::external_body]
#[verifier::reject_recursive_types(K)]
#[verifier::reject_recursive_types(V)]
pub struct ExRefMut<'a, K, V>(dashmap::mapref::one::RefMut<'a, K, V>);

/// A map without slots, from `dashmap::DashMap::new`.
#[verifier::external_body]
pub(crate) fn open_slots<V>() -> dashmap::DashMap<String, V> {
    dashmap::DashMap::new()
}

/// The slot of a symbol, held for reading, from `dashmap::DashMap::get`;
/// `None` if the symbol has no slot. The hold ends when the value returned
/// is dropped. Others may have changed the map at any time before, so
/// nothing is claimed of what is found.
#[verifier::external_body]
pub(crate) fn find_slot<'a, V>(slots: &'a dashmap::DashMap<String, V>, symbol: &str) -> Option<
    dashmap::mapref::one::Ref<'a, String, V>,
> {
    slots.get(symbol)
}

/// The slot of a symbol, held for writing, from `dashmap::DashMap::entry`
/// and `Entry::or_default`: a symbol without a slot gets one with the default
/// value. The hold ends when the value returned is dropped; until then
/// other callers for the symbol wait. Nothing is claimed of what the slot
/// holds.
#[verifier::external_body]
pub(crate) fn hold_slot<'a, V: Default>(
    slots: &'a dashmap::DashMap<String, V>,
    symbol: String,
) -> dashmap::mapref::one::RefMut<'a, String, V> {
    slots.entry(symbol).or_default()
}

} // verus!
