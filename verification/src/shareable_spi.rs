//! The shared bus: owns the single physical device and implements the lock
//! capability over it with one busy flag.

use vstd::prelude::*;

use crate::spi_device::SpiDevice;
use crate::spi_lock::SpiBusConflict;
use crate::spi_lock::SpiError;
use crate::spi_lock::SpiLock;
use crate::spi_trace::SpiEvent;

verus! {

/// The admission gate.  `Busy` stands for the busy flag being set: the one
/// device is out in an open critical section, so nothing is held here and no
/// second section can obtain it.  `Free` holds the device and stands for the
/// flag being clear.
enum BusState<DEV> {
    Free(DEV),
    Busy,
}

/// A wrapper that shares one SPI device between multiple drivers.
///
/// It owns the device exclusively and exposes it only through [`SpiLock`]:
/// `lock` flips the busy flag and hands the device out, `unlock` takes it
/// back, and a `lock` attempt while the flag is set is refused at once with
/// the fatal [`SpiBusConflict`] — check [`SpiLock::busy`] first to avoid that
/// path.  A `SharedSpi` is also usable as-is, with no mode awareness, by
/// drivers that need none: its own [`transfer`](SharedSpi::transfer) and
/// [`write`](SharedSpi::write) delegate through the lock.
pub struct SharedSpi<DEV> {
    state: BusState<DEV>,
}

impl<DEV> SharedSpi<DEV> {
    /// Wraps an already-initialized device, with no critical section open.
    pub fn new(spi: DEV) -> (r: SharedSpi<DEV>)
        ensures
            !r.locked(),
            r.guarded() == spi,
    {
        SharedSpi { state: BusState::Free(spi) }
    }

    /// Consumes the wrapper and releases the underlying device, or `None` if
    /// a critical section is still open and the device is out.
    pub fn free(self) -> (r: Option<DEV>)
        ensures
            !self.locked() ==> r == Some(self.guarded()),
            self.locked() ==> r is None,
    {
        match self.state {
            BusState::Free(dev) => Some(dev),
            BusState::Busy => None,
        }
    }
}

impl<DEV> SpiLock<DEV> for SharedSpi<DEV> {
    closed spec fn locked(&self) -> bool {
        self.state is Busy
    }

    closed spec fn guarded(&self) -> DEV {
        self.state->Free_0
    }

    fn lock(&mut self) -> (r: Result<DEV, SpiBusConflict>) {
        let mut taken = BusState::Busy;
        core::mem::swap(&mut self.state, &mut taken);
        match taken {
            BusState::Free(dev) => Ok(dev),
            BusState::Busy => Err(SpiBusConflict),
        }
    }

    fn unlock(&mut self, dev: DEV) {
        self.state = BusState::Free(dev);
    }

    fn busy(&self) -> (r: bool) {
        match &self.state {
            BusState::Busy => true,
            BusState::Free(_) => false,
        }
    }
}

impl<DEV: SpiDevice> SharedSpi<DEV> {
    /// Raw transfer under the lock, with no mode change: sends `words` and
    /// replaces them with the bytes received back.  Fails with the fatal
    /// `Conflict` exactly when a critical section was already open, in which
    /// case nothing is touched; a device error is passed through unchanged.
    pub fn transfer(&mut self, words: &mut Vec<u8>) -> (r: Result<(), SpiError<DEV::Error>>)
        ensures
            match r {
                Ok(()) => {
                    &&& !old(self).locked()
                    &&& !final(self).locked()
                    &&& final(self).guarded().trace() == old(self).guarded().trace().push(
                        SpiEvent::Transfer(old(words)@, final(words)@),
                    )
                    &&& final(words)@.len() == old(words)@.len()
                },
                Err(SpiError::Conflict) => {
                    &&& old(self).locked()
                    &&& *final(self) == *old(self)
                    &&& final(words)@ == old(words)@
                },
                Err(SpiError::Device(_)) => {
                    &&& !old(self).locked()
                    &&& !final(self).locked()
                    &&& final(self).guarded().trace() == old(self).guarded().trace()
                    &&& final(words)@ == old(words)@
                },
            },
    {
        match self.lock() {
            Err(_) => Err(SpiError::Conflict),
            Ok(mut dev) => {
                let res = dev.transfer(words);
                self.unlock(dev);
                match res {
                    Ok(()) => Ok(()),
                    Err(e) => Err(SpiError::Device(e)),
                }
            },
        }
    }

    /// Raw write under the lock, with no mode change: sends `words`,
    /// ignoring all the incoming words.  Failure cases are as in
    /// [`transfer`](SharedSpi::transfer).
    pub fn write(&mut self, words: &Vec<u8>) -> (r: Result<(), SpiError<DEV::Error>>)
        ensures
            match r {
                Ok(()) => {
                    &&& !old(self).locked()
                    &&& !final(self).locked()
                    &&& final(self).guarded().trace() == old(self).guarded().trace().push(
                        SpiEvent::Write(words@),
                    )
                },
                Err(SpiError::Conflict) => {
                    &&& old(self).locked()
                    &&& *final(self) == *old(self)
                },
                Err(SpiError::Device(_)) => {
                    &&& !old(self).locked()
                    &&& !final(self).locked()
                    &&& final(self).guarded().trace() == old(self).guarded().trace()
                },
            },
    {
        match self.lock() {
            Err(_) => Err(SpiError::Conflict),
            Ok(mut dev) => {
                let res = dev.write(words);
                self.unlock(dev);
                match res {
                    Ok(()) => Ok(()),
                    Err(e) => Err(SpiError::Device(e)),
                }
            },
        }
    }
}

} // verus!
