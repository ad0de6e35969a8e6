//! Sharing of one physical SPI bus between several independent drivers.
//!
//! One device can drive the bus at a time.  [`SharedSpi`] owns the single
//! underlying device and guards it with a busy flag: a later arrival during an
//! active critical section is refused at once (a bus conflict) instead of
//! waiting, so a sharing bug surfaces loudly rather than deadlocking an
//! interrupt context.  [`ShareableSpiWithConf`] is the per-driver handle: it
//! carries that driver's fixed electrical mode and re-applies it inside the
//! critical section before every transaction, so each driver always observes
//! the bus in its own mode no matter what another handle left behind.

mod reconfigurable_mode;
mod recording_spi;
mod shareable_spi;
mod shareable_spi_with_conf;
mod spi_device;
mod spi_lock;
mod spi_mode;
mod spi_trace;

pub use reconfigurable_mode::ReconfigurableSpiMode;
pub use recording_spi::DeviceFault;
pub use recording_spi::RecordedCall;
pub use recording_spi::RecordingSpi;
pub use recording_spi::canned_reply;
pub use recording_spi::events_of;
pub use shareable_spi::SharedSpi;
pub use shareable_spi_with_conf::ShareableSpiWithConf;
pub use spi_device::SpiDevice;
pub use spi_lock::SpiBusConflict;
pub use spi_lock::SpiError;
pub use spi_lock::SpiLock;
pub use spi_mode::Phase;
pub use spi_mode::Polarity;
pub use spi_mode::SpiMode;
pub use spi_trace::SpiEvent;
pub use spi_trace::is_transaction;
pub use spi_trace::lemma_every_call_observes_its_own_mode;
pub use spi_trace::lemma_modes_independent_per_handle;
pub use spi_trace::lemma_transaction_observes_bound_mode;
pub use spi_trace::mode_before;
pub use spi_trace::trace_of_calls;
