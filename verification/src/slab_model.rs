//! The contract under which the handle table uses `slab::Slab`.
//!
//! Nothing in this file is proved. Each function below makes exactly one call
//! into the `slab` crate, and its contract records what that call does to the
//! set of occupied slots.

use slab::Slab;
use vstd::prelude::*;

verus! {

/// `slab::Slab`, declared so that it can stand in fields and signatures.
/// Nothing inside a slab is visible but through `slab_entries`.
#[verifier::external_type_specification]
#[verifier::external_body]
#[verifier::reject_recursive_types(T)]
pub struct ExSlab<T>(Slab<T>);

/// The occupied slots of a slab of byte buffers: each key that is associated
/// with a value, mapped to the bytes of that value.
pub uninterp spec fn slab_entries(slab: Slab<Vec<u8>>) -> Map<usize, Seq<u8>>;

/// `Slab::new`: a slab without any occupied slot.
#[verifier::external_body]
pub(crate) fn slab_new() -> (fresh: Slab<Vec<u8>>)
    ensures
        slab_entries(fresh).dom() == Set::<usize>::empty(),
{
    Slab::new()
}

/// `Slab::is_empty`: whether no slot is occupied.
#[verifier::external_body]
pub(crate) fn slab_is_empty(slab: &Slab<Vec<u8>>) -> (empty: bool)
    ensures
        empty == slab_entries(*slab).is_empty(),
{
    slab.is_empty()
}

/// `Slab::insert`: stores `value` under a key that was vacant and returns
/// that key; every other slot is left as it was. Which vacant key is chosen
/// is not stated. The call panics only when the slot vector would outgrow
/// `isize::MAX` bytes, the limit that `Vec::push` has as well.
#[verifier::external_body]
pub(crate) fn slab_insert(slab: &mut Slab<Vec<u8>>, value: Vec<u8>) -> (key: usize)
    ensures
        !slab_entries(*old(slab)).contains_key(key),
        slab_entries(*final(slab)) == slab_entries(*old(slab)).insert(key, value@),
{
    slab.insert(value)
}

/// `Slab::get`: the value stored under `key`, or `None` if the slot is
/// vacant or out of range.
#[verifier::external_body]
pub(crate) fn slab_get(slab: &Slab<Vec<u8>>, key: usize) -> (value: Option<&Vec<u8>>)
    ensures
        value.is_some() == slab_entries(*slab).contains_key(key),
        value.is_some() ==> value.unwrap()@ == slab_entries(*slab)[key],
{
    slab.get(key)
}

/// `Slab::get_mut`: a mutable borrow of the value stored under `key`, or
/// `None` if the slot is vacant or out of range. The slab is unchanged but
/// for what the caller writes through the borrow.
#[verifier::external_body]
pub(crate) fn slab_get_mut(slab: &mut Slab<Vec<u8>>, key: usize) -> (value: Option<&mut Vec<u8>>)
    ensures
        value.is_some() == slab_entries(*old(slab)).contains_key(key),
        value.is_some() ==> value.unwrap()@ == slab_entries(*old(slab))[key]
            && slab_entries(*final(slab)) == slab_entries(*old(slab)).insert(
            key,
            final(value.unwrap())@,
        ),
        value.is_none() ==> slab_entries(*final(slab)) == slab_entries(*old(slab)),
{
    slab.get_mut(key)
}

/// `Slab::try_remove`: vacates the slot under `key` and returns the value
/// that was stored there, or returns `None` and changes nothing if the slot
/// is vacant or out of range.
#[verifier::external_body]
pub(crate) fn slab_try_remove(slab: &mut Slab<Vec<u8>>, key: usize) -> (value: Option<Vec<u8>>)
    ensures
        value.is_some() == slab_entries(*old(slab)).contains_key(key),
        value.is_some() ==> value.unwrap()@ == slab_entries(*old(slab))[key],
        slab_entries(*final(slab)) == slab_entries(*old(slab)).remove(key),
{
    slab.try_remove(key)
}

} // verus!
