//! The capability a raw bus device exposes: blocking byte transfer and write.
//! The board's bring-up code provides such a device fully initialized; the
//! shared bus owns it and is the only component that touches it.

use vstd::prelude::*;

use crate::spi_trace::SpiEvent;

verus! {

/// A bus-master device capable of raw byte transfer and write.
///
/// The ghost trace records, in order, every completed operation the device
/// was driven through.  A failed operation reports the device's own error
/// unchanged and records nothing: the trace holds completed transactions
/// only.
pub trait SpiDevice: Sized {
    /// The device's own error type for a failed transfer or write.
    type Error;

    /// Everything this device has been observed to do, oldest first.
    ///
    /// The default says nothing; an implementation left unverified may keep
    /// it, and then nothing is known of its trace.
    open spec fn trace(&self) -> Seq<SpiEvent> {
        arbitrary()
    }

    /// Sends `words` to the slave and replaces them in place with the words
    /// received back, one for one.
    fn transfer(&mut self, words: &mut Vec<u8>) -> (r: Result<(), Self::Error>)
        ensures
            match r {
                Ok(()) => {
                    &&& final(self).trace() == old(self).trace().push(
                        SpiEvent::Transfer(old(words)@, final(words)@),
                    )
                    &&& final(words)@.len() == old(words)@.len()
                },
                Err(_) => {
                    &&& final(self).trace() == old(self).trace()
                    &&& final(words)@ == old(words)@
                },
            },
    ;

    /// Sends `words` to the slave, ignoring all the incoming words.
    fn write(&mut self, words: &Vec<u8>) -> (r: Result<(), Self::Error>)
        ensures
            match r {
                Ok(()) => final(self).trace() == old(self).trace().push(SpiEvent::Write(words@)),
                Err(_) => final(self).trace() == old(self).trace(),
            },
    ;
}

} // verus!
