//! A device that records every call made to it and answers transfers from a
//! canned response.  It implements the device capabilities with their full
//! contracts, so a bus or handle wrapped around it behaves exactly as around
//! real hardware, while everything the bus did stays observable afterwards.

use vstd::prelude::*;

use crate::reconfigurable_mode::ReconfigurableSpiMode;
use crate::spi_device::SpiDevice;
use crate::spi_mode::SpiMode;
use crate::spi_trace::SpiEvent;

verus! {

/// The injected error a [`RecordingSpi`] reports when told to fail.
#[derive(Clone, Copy, Debug, PartialEq, Eq, Structural)]
pub struct DeviceFault;

/// One recorded call, the executable twin of one [`SpiEvent`].
#[derive(Debug, PartialEq, Eq)]
pub enum RecordedCall {
    /// The device was told to adopt this mode.
    ModeChange(SpiMode),
    /// These bytes were written.
    Write(Vec<u8>),
    /// These bytes were sent, and the second sequence handed back.
    Transfer(Vec<u8>, Vec<u8>),
}

impl View for RecordedCall {
    type V = SpiEvent;

    open spec fn view(&self) -> SpiEvent {
        match self {
            RecordedCall::ModeChange(mode) => SpiEvent::ModeChange(*mode),
            RecordedCall::Write(sent) => SpiEvent::Write(sent@),
            RecordedCall::Transfer(sent, received) => SpiEvent::Transfer(sent@, received@),
        }
    }
}

/// The events that a sequence of recorded calls stands for, oldest first.
pub open spec fn events_of(calls: Seq<RecordedCall>) -> Seq<SpiEvent>
    decreases calls.len(),
{
    if calls.len() == 0 {
        Seq::empty()
    } else {
        events_of(calls.drop_last()).push(calls.last()@)
    }
}

proof fn lemma_events_of_push(calls: Seq<RecordedCall>, call: RecordedCall)
    ensures
        events_of(calls.push(call)) == events_of(calls).push(call@),
{
    assert(calls.push(call).drop_last() =~= calls);
}

/// What a transfer of `len` bytes gets back from a device whose canned
/// response is `response`: the response itself, cut or padded with zero
/// bytes to the transfer's own length.
pub open spec fn canned_reply(response: Seq<u8>, len: nat) -> Seq<u8> {
    Seq::new(
        len,
        |i: int|
            if i < response.len() {
                response[i]
            } else {
                0u8
            },
    )
}

/// A fake device for exercising a shared bus: it records every mode change,
/// write and transfer, answers each transfer from one canned response, and
/// fails an operation on demand.
pub struct RecordingSpi {
    calls: Vec<RecordedCall>,
    response: Vec<u8>,
    fail_next: bool,
}

impl RecordingSpi {
    /// The canned response transfers are answered from.
    pub closed spec fn response_bytes(&self) -> Seq<u8> {
        self.response@
    }

    /// Whether the next transfer or write is to fail.
    pub closed spec fn failing(&self) -> bool {
        self.fail_next
    }

    /// A device with no calls recorded yet, answering transfers from
    /// `response`.
    pub fn new(response: Vec<u8>) -> (r: RecordingSpi)
        ensures
            r.trace() == Seq::<SpiEvent>::empty(),
            r.response_bytes() == response@,
            !r.failing(),
    {
        RecordingSpi { calls: Vec::new(), response, fail_next: false }
    }

    /// Makes the next transfer or write fail with [`DeviceFault`] and record
    /// nothing; the operation after that behaves normally again.
    pub fn fail_next_call(&mut self)
        ensures
            final(self).failing(),
            final(self).trace() == old(self).trace(),
            final(self).response_bytes() == old(self).response_bytes(),
    {
        self.fail_next = true;
    }

    /// The recorded calls, oldest first.
    pub fn calls(&self) -> (r: &Vec<RecordedCall>)
        ensures
            events_of(r@) == self.trace(),
    {
        &self.calls
    }
}

/// A fresh vector holding the same bytes as `src`.
fn copied_bytes(src: &Vec<u8>) -> (r: Vec<u8>)
    ensures
        r@ == src@,
{
    let mut r: Vec<u8> = Vec::new();
    let mut i: usize = 0;
    while i < src.len()
        invariant
            i <= src@.len(),
            r@ == src@.subrange(0, i as int),
        decreases src@.len() - i,
    {
        r.push(src[i]);
        proof {
            assert(r@ =~= src@.subrange(0, (i + 1) as int));
        }
        i = i + 1;
    }
    proof {
        assert(r@ =~= src@);
    }
    r
}

impl SpiDevice for RecordingSpi {
    type Error = DeviceFault;

    closed spec fn trace(&self) -> Seq<SpiEvent> {
        events_of(self.calls@)
    }

    fn transfer(&mut self, words: &mut Vec<u8>) -> (r: Result<(), DeviceFault>)
        ensures
            r is Err <==> old(self).failing(),
            !final(self).failing(),
            final(self).response_bytes() == old(self).response_bytes(),
            r is Ok ==> final(words)@ == canned_reply(old(self).response_bytes(), old(words)@.len()),
    {
        if self.fail_next {
            self.fail_next = false;
            return Err(DeviceFault);
        }
        let sent = copied_bytes(words);
        let mut received: Vec<u8> = Vec::new();
        let mut i: usize = 0;
        while i < words.len()
            invariant
                i <= words@.len(),
                received@.len() == i,
                forall|j: int|
                    0 <= j < i ==> received@[j] == canned_reply(
                        self.response@,
                        words@.len(),
                    )[j],
            decreases words@.len() - i,
        {
            let byte: u8 = if i < self.response.len() {
                self.response[i]
            } else {
                0
            };
            received.push(byte);
            i = i + 1;
        }
        proof {
            assert(received@ =~= canned_reply(self.response@, words@.len()));
        }
        let received_copy = copied_bytes(&received);
        core::mem::swap(words, &mut received);
        let call = RecordedCall::Transfer(sent, received_copy);
        proof {
            lemma_events_of_push(self.calls@, call);
        }
        self.calls.push(call);
        Ok(())
    }

    fn write(&mut self, words: &Vec<u8>) -> (r: Result<(), DeviceFault>)
        ensures
            r is Err <==> old(self).failing(),
            !final(self).failing(),
            final(self).response_bytes() == old(self).response_bytes(),
    {
        if self.fail_next {
            self.fail_next = false;
            return Err(DeviceFault);
        }
        let call = RecordedCall::Write(copied_bytes(words));
        proof {
            lemma_events_of_push(self.calls@, call);
        }
        self.calls.push(call);
        Ok(())
    }
}

impl ReconfigurableSpiMode for RecordingSpi {
    fn change_spi_mode(&mut self, mode: SpiMode)
        ensures
            final(self).failing() == old(self).failing(),
            final(self).response_bytes() == old(self).response_bytes(),
    {
        let call = RecordedCall::ModeChange(mode);
        proof {
            lemma_events_of_push(self.calls@, call);
        }
        self.calls.push(call);
    }
}

} // verus!
