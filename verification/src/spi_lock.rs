//! The lock capability a bus-sharing provider exposes: scoped acquisition of
//! the one guarded device, with guaranteed give-back, plus a busy query.
//!
//! There is no waiting and no queue.  A `lock` while a critical section is
//! already open is refused at once with [`SpiBusConflict`]: in an interrupt
//! context, blocking on the holder could deadlock, so an overlap — always a
//! sharing defect, not a transient condition — is surfaced loudly instead.

use vstd::prelude::*;

verus! {

/// Two contexts attempted overlapping critical sections on one bus.
///
/// This is the fatal condition of the crate, not a recoverable error: it
/// reports a programming or wiring defect (say, missing interrupt masking),
/// so callers are expected to abort the current unit of execution rather
/// than retry.  Retrying or blocking could deadlock an interrupt handler.
#[derive(Clone, Copy, Debug, PartialEq, Eq, Structural)]
pub struct SpiBusConflict;

/// What an operation through a shared bus reports when it fails.
#[derive(Debug, PartialEq, Eq)]
pub enum SpiError<E> {
    /// The fatal case: another critical section was open.  See
    /// [`SpiBusConflict`].
    Conflict,
    /// The underlying device's transfer or write failed; its error is passed
    /// through unchanged and is as recoverable as the device says it is.
    Device(E),
}

/// A provider of exclusive, synchronous access to one guarded device.
///
/// `lock` hands the device out by value and marks the provider busy; `unlock`
/// takes it back.  Between the two, the provider holds no device at all, so
/// no second critical section can open: a `lock` in that span is refused with
/// [`SpiBusConflict`] and changes nothing.
pub trait SpiLock<SHARED>: Sized {
    /// Whether a critical section is open: `lock` has succeeded and the
    /// device has not been given back yet.
    spec fn locked(&self) -> bool;

    /// The guarded device, meaningful while no critical section is open.
    spec fn guarded(&self) -> SHARED;

    /// Opens the critical section and hands the guarded device out, or
    /// refuses with the fatal [`SpiBusConflict`] if one is already open,
    /// leaving the provider untouched.
    fn lock(&mut self) -> (r: Result<SHARED, SpiBusConflict>)
        ensures
            match r {
                Ok(dev) => {
                    &&& !old(self).locked()
                    &&& final(self).locked()
                    &&& dev == old(self).guarded()
                },
                Err(_) => {
                    &&& old(self).locked()
                    &&& *final(self) == *old(self)
                },
            },
    ;

    /// Gives the device back and closes the critical section.
    fn unlock(&mut self, dev: SHARED)
        requires
            old(self).locked(),
        ensures
            !final(self).locked(),
            final(self).guarded() == dev,
    ;

    /// Whether a critical section is open right now, without side effects.
    ///
    /// Best-effort only: against genuinely concurrent callers the answer is
    /// stale as soon as it is read, so this is an optional fast-fail check,
    /// never a correctness argument.
    fn busy(&self) -> (r: bool)
        ensures
            r == self.locked(),
    ;
}

} // verus!
