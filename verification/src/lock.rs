//! The guard of a converter unit: a spin lock around the slot that names the
//! channel with a conversion under way.
//!
//! The lock is `spin::Mutex`. Nothing here is proved: each item states what
//! the `spin` crate does, and the conversion engine is verified against
//! these statements.

use vstd::prelude::*;

verus! {

/// `spin::Mutex`, a lock that is taken by spinning or not at all. Opaque.
#[verifier::external_type_specification]
#[verifier::external_body]
#[verifier::reject_recursive_types(T)]
pub struct ExMutex<T: ?Sized>(spin::Mutex<T>);

/// `spin::MutexGuard`, the proof that its holder has the lock, which is given
/// up when the guard is dropped. Opaque.
#[verifier::external_type_specification]
#[verifier::external_body]
#[verifier::reject_recursive_types(T)]
pub struct ExMutexGuard<'a, T: ?Sized + 'a>(spin::MutexGuard<'a, T>);

/// The slot as seen through a guard: what the guard dereferences to. While a
/// guard exists nobody else reads or writes the slot, so what one guard shows
/// changes only by a write through that guard.
pub uninterp spec fn guarded(guard: &spin::MutexGuard<'_, Option<u8>>) -> Option<u8>;

/// `spin::Mutex::new`: a lock that nobody holds, around `slot`.
#[verifier::external_body]
pub(crate) fn new_lock(slot: Option<u8>) -> spin::Mutex<Option<u8>> {
    spin::Mutex::new(slot)
}

/// `spin::Mutex::try_lock`: takes the lock if nobody holds it and returns at
/// once either way. Whether the lock is free is up to the other holders, so
/// nothing is claimed of the result.
#[verifier::external_body]
pub(crate) fn try_lock<'a>(lock: &'a spin::Mutex<Option<u8>>) -> Option<
    spin::MutexGuard<'a, Option<u8>>,
> {
    lock.try_lock()
}

/// `Deref` of `spin::MutexGuard`: reads the slot through the guard.
#[verifier::external_body]
pub(crate) fn load(guard: &spin::MutexGuard<'_, Option<u8>>) -> (slot: Option<u8>)
    ensures
        slot == guarded(guard),
{
    **guard
}

/// `DerefMut` of `spin::MutexGuard`: writes the slot through the guard.
#[verifier::external_body]
pub(crate) fn store(guard: &mut spin::MutexGuard<'_, Option<u8>>, slot: Option<u8>)
    ensures
        guarded(final(guard)) == slot,
{
    **guard = slot;
}

} // verus!
