//! The electrical mode of an SPI transaction: clock idle level and sampling
//! edge.  A mode value is chosen per logical consumer when its handle is
//! built and never mutated afterwards.

use vstd::prelude::*;

verus! {

/// Clock polarity: the level the clock line idles at between transactions.
#[derive(Clone, Copy, Debug, PartialEq, Eq, Structural)]
pub enum Polarity {
    IdleLow,
    IdleHigh,
}

/// Clock phase: the clock transition on which data is captured.
#[derive(Clone, Copy, Debug, PartialEq, Eq, Structural)]
pub enum Phase {
    CaptureOnFirstTransition,
    CaptureOnSecondTransition,
}

/// An immutable polarity/phase pair.  Distinct handles over the same bus may
/// carry distinct mode values.
#[derive(Clone, Copy, Debug, PartialEq, Eq, Structural)]
pub struct SpiMode {
    pub polarity: Polarity,
    pub phase: Phase,
}

} // verus!
