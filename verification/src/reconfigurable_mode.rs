//! The capability a mode-reconfigurable bus device exposes: it can be told,
//! at runtime, to switch its electrical mode before a transaction.

use vstd::prelude::*;

use crate::spi_device::SpiDevice;
use crate::spi_mode::SpiMode;
use crate::spi_trace::SpiEvent;

verus! {

/// An SPI device that can change its polarity/phase mode.
///
/// This is what [`ShareableSpiWithConf`](crate::ShareableSpiWithConf) asks of
/// the device it decorates: before every transfer or write it switches the
/// device to the handle's own mode.
pub trait ReconfigurableSpiMode: SpiDevice {
    /// Changes the mode of the SPI device.
    ///
    /// A mode change is a local register write, not a bus transaction, so it
    /// always succeeds; repeating it with the same mode is a no-op in effect,
    /// though each request is observed on the trace.
    fn change_spi_mode(&mut self, mode: SpiMode)
        ensures
            final(self).trace() == old(self).trace().push(SpiEvent::ModeChange(mode)),
    ;
}

} // verus!
