//! The slot as it is shared between the thread that delivers frames and the
//! thread that polls for them.
//!
//! The slot sits behind a lock, and every operation holds the lock only while
//! it copies a frame in or out. What the slot holds can change between any
//! two operations, so the contracts here state what is true whatever another
//! thread did; what an operation does to the slot it finds is stated on
//! [`FrameSlot`].

use vstd::prelude::*;
use std::sync::Arc;
use std::sync::Mutex;
use std::sync::MutexGuard;
use crate::delivery::prepare;
use crate::delivery::prepared;
use crate::delivery::Dropped;
use crate::delivery::Sample;
use crate::frame::Frame;
use crate::frame::FrameSlot;

verus! {

/// `std::sync::Mutex`, of which nothing is known but its name.
#[verifier::external_type_specification]
#[verifier::external_body]
#[verifier::reject_recursive_types(T)]
pub struct ExMutex<T: ?Sized>(Mutex<T>);

/// `std::sync::MutexGuard`, of which nothing is known but its name.
#[verifier::external_type_specification]
#[verifier::external_body]
#[verifier::reject_recursive_types(T)]
pub struct ExMutexGuard<'a, T: ?Sized + 'a>(MutexGuard<'a, T>);

/// `Mutex::new`: a lock around `slot`. Nothing is stated of the lock, since
/// what it protects can change under any reader.
#[verifier::external_body]
fn lock_around(slot: FrameSlot) -> (lock: Mutex<FrameSlot>) {
    Mutex::new(slot)
}

/// `Mutex::lock`: waits for the lock and takes it; `None` stands for a lock
/// that is poisoned. Nothing is stated of the guard. No guard leaves this
/// file, and each is dropped before the function that took it returns, so no
/// thread asks for a lock that it holds itself.
#[verifier::external_body]
fn acquire<'a>(lock: &'a Mutex<FrameSlot>) -> (guard: Option<MutexGuard<'a, FrameSlot>>) {
    match lock.lock() {
        Ok(guard) => Some(guard),
        Err(_) => None,
    }
}

/// `DerefMut::deref_mut` of a guard: the slot that the lock protects, for as
/// long as the guard is borrowed. Nothing is stated of what the slot holds.
#[verifier::external_body]
fn protected<'a, 'b>(guard: &'a mut MutexGuard<'b, FrameSlot>) -> (slot: &'a mut FrameSlot) {
    &mut *guard
}

/// `Arc::clone`: another pointer to the same lock. The two are equal, as
/// pointers to one value are.
#[verifier::external_body]
fn another(handle: &Arc<Mutex<FrameSlot>>) -> (copy: Arc<Mutex<FrameSlot>>)
    ensures
        copy == *handle,
{
    Arc::clone(handle)
}

/// A handle to a slot that several threads may hold at once. Two handles are
/// equal when they lead to the same slot; what the slot holds at any moment is
/// no part of a handle's value.
pub struct SharedSlot {
    lock: Arc<Mutex<FrameSlot>>,
}

impl SharedSlot {
    /// A new, empty slot that announces the given size.
    pub fn new(resolution: (usize, usize)) -> SharedSlot {
        SharedSlot { lock: Arc::new(lock_around(FrameSlot::new(resolution))) }
    }

    /// Another handle to the same slot, to be given to another thread.
    pub fn share(&self) -> (handle: SharedSlot)
        ensures
            handle == *self,
    {
        SharedSlot { lock: another(&self.lock) }
    }

    /// Writes `frame` as [`FrameSlot::write`] does. Returns whether the slot
    /// could be locked; if not, the frame is dropped.
    pub fn write(&self, frame: Frame) -> (stored: bool) {
        match acquire(&self.lock) {
            Some(mut guard) => {
                protected(&mut guard).write(frame);
                true
            },
            None => false,
        }
    }

    /// Reads as [`FrameSlot::read`] does. Nothing is handed out if the slot
    /// cannot be locked.
    pub fn read(&self, invalidate: bool) -> (frame: Option<Frame>)
        ensures
            frame matches Some(f) ==> f@.well_formed(),
    {
        match acquire(&self.lock) {
            Some(mut guard) => protected(&mut guard).read(invalidate),
            None => None,
        }
    }

    /// Delivers a sample: it is checked and brought to the canonical layout
    /// before the slot is locked, and written as [`FrameSlot::write`] does.
    /// A sample that is dropped never touches the slot, and the reason given
    /// is the one [`prepared`] names. A good frame is stored unless the slot
    /// cannot be locked.
    pub fn deliver(&self, sample: Sample) -> (outcome: Result<(), Dropped>)
        ensures
            prepared(sample) matches Err(e) ==> outcome == Err::<(), Dropped>(e),
            prepared(sample) is Ok ==> outcome is Ok || outcome == Err::<(), Dropped>(
                Dropped::SlotUnavailable,
            ),
    {
        match prepare(sample) {
            Ok(frame) => {
                if self.write(frame) {
                    Ok(())
                } else {
                    Err(Dropped::SlotUnavailable)
                }
            },
            Err(e) => Err(e),
        }
    }
}

} // verus!
