//! The per-driver decorator: a handle bound to one fixed mode, which
//! reconfigures the device to that mode inside the critical section before
//! every operation.

use vstd::prelude::*;

use crate::reconfigurable_mode::ReconfigurableSpiMode;
use crate::spi_lock::SpiError;
use crate::spi_lock::SpiLock;
use crate::spi_mode::SpiMode;
use crate::spi_trace::SpiEvent;

verus! {

/// A mode-bound handle over a shared bus.
///
/// One handle is built per logical consumer, carrying that consumer's fixed
/// mode; the lock provider (typically a [`SharedSpi`](crate::SharedSpi)) is
/// handed to each operation, so any number of handles, with possibly distinct
/// modes, can take turns over the same bus.  Every operation locks the bus,
/// switches the device to the bound mode, performs the raw transfer or write,
/// and releases — the mode switch and the transaction share one critical
/// section, so no other handle's work can fall between them.
pub struct ShareableSpiWithConf {
    mode: SpiMode,
}

impl ShareableSpiWithConf {
    /// The mode this handle was built with and applies before every
    /// operation.
    pub closed spec fn bound_mode(&self) -> SpiMode {
        self.mode
    }

    /// Builds a handle bound to `mode`.
    pub fn new(mode: SpiMode) -> (r: ShareableSpiWithConf)
        ensures
            r.bound_mode() == mode,
    {
        ShareableSpiWithConf { mode }
    }

    /// The handle's bound mode.
    pub fn mode(&self) -> (m: SpiMode)
        ensures
            m == self.bound_mode(),
    {
        self.mode
    }

    /// Transfer in the handle's own mode: locks `spi`, switches the device to
    /// the bound mode, sends `words` and replaces them with the bytes
    /// received back, and releases the bus.
    ///
    /// Fails with the fatal `Conflict` exactly when a critical section was
    /// already open, in which case nothing is touched.  A device error is
    /// passed through unchanged; the mode change has been observed by then,
    /// but no transaction.
    pub fn transfer<SPI, DEV>(&self, spi: &mut SPI, words: &mut Vec<u8>) -> (r: Result<
        (),
        SpiError<DEV::Error>,
    >) where SPI: SpiLock<DEV>, DEV: ReconfigurableSpiMode
        ensures
            match r {
                Ok(()) => {
                    &&& !old(spi).locked()
                    &&& !final(spi).locked()
                    &&& final(spi).guarded().trace() == old(spi).guarded().trace().push(
                        SpiEvent::ModeChange(self.bound_mode()),
                    ).push(SpiEvent::Transfer(old(words)@, final(words)@))
                    &&& final(words)@.len() == old(words)@.len()
                },
                Err(SpiError::Conflict) => {
                    &&& old(spi).locked()
                    &&& *final(spi) == *old(spi)
                    &&& final(words)@ == old(words)@
                },
                Err(SpiError::Device(_)) => {
                    &&& !old(spi).locked()
                    &&& !final(spi).locked()
                    &&& final(spi).guarded().trace() == old(spi).guarded().trace().push(
                        SpiEvent::ModeChange(self.bound_mode()),
                    )
                    &&& final(words)@ == old(words)@
                },
            },
    {
        let mode = self.mode();
        match spi.lock() {
            Err(_) => Err(SpiError::Conflict),
            Ok(mut dev) => {
                dev.change_spi_mode(mode);
                let res = dev.transfer(words);
                spi.unlock(dev);
                match res {
                    Ok(()) => Ok(()),
                    Err(e) => Err(SpiError::Device(e)),
                }
            },
        }
    }

    /// Write in the handle's own mode: locks `spi`, switches the device to
    /// the bound mode, sends `words`, ignoring all the incoming words, and
    /// releases the bus.  Failure cases are as in
    /// [`transfer`](ShareableSpiWithConf::transfer).
    pub fn write<SPI, DEV>(&self, spi: &mut SPI, words: &Vec<u8>) -> (r: Result<
        (),
        SpiError<DEV::Error>,
    >) where SPI: SpiLock<DEV>, DEV: ReconfigurableSpiMode
        ensures
            match r {
                Ok(()) => {
                    &&& !old(spi).locked()
                    &&& !final(spi).locked()
                    &&& final(spi).guarded().trace() == old(spi).guarded().trace().push(
                        SpiEvent::ModeChange(self.bound_mode()),
                    ).push(SpiEvent::Write(words@))
                },
                Err(SpiError::Conflict) => {
                    &&& old(spi).locked()
                    &&& *final(spi) == *old(spi)
                },
                Err(SpiError::Device(_)) => {
                    &&& !old(spi).locked()
                    &&& !final(spi).locked()
                    &&& final(spi).guarded().trace() == old(spi).guarded().trace().push(
                        SpiEvent::ModeChange(self.bound_mode()),
                    )
                },
            },
    {
        let mode = self.mode();
        match spi.lock() {
            Err(_) => Err(SpiError::Conflict),
            Ok(mut dev) => {
                dev.change_spi_mode(mode);
                let res = dev.write(words);
                spi.unlock(dev);
                match res {
                    Ok(()) => Ok(()),
                    Err(e) => Err(SpiError::Device(e)),
                }
            },
        }
    }
}

} // verus!
