//! The ordered record of messages to deliver.
//!
//! The adapters never touch a device. They append what has to be delivered to
//! an [`Outbox`], each message tagged with the sink it is meant for, and the
//! caller delivers them in that order.

use vstd::prelude::*;
use crate::wire::{
    make_status, status_byte, triplet, DEVICE_CHANNEL, FULL_VELOCITY, NOTE_OFF, NOTE_ON,
};

verus! {

/// Where a message is to be delivered.
#[derive(Clone, Copy, Debug, PartialEq, Eq, Structural)]
pub enum Sink {
    /// The performance software.
    Output,
    /// Back to the controller, to drive its indicator lights.
    Feedback,
}

/// One message to deliver.
#[derive(Debug, PartialEq, Eq)]
pub struct Emission {
    pub sink: Sink,
    pub bytes: Vec<u8>,
}

/// What an [`Emission`] stands for: a sink and the bytes sent to it.
pub struct Sent {
    pub sink: Sink,
    pub bytes: Seq<u8>,
}

impl View for Emission {
    type V = Sent;

    open spec fn view(&self) -> Sent {
        Sent { sink: self.sink, bytes: self.bytes@ }
    }
}

/// A three-byte message for the performance software.
pub open spec fn output(status: u8, first: u8, second: u8) -> Sent {
    Sent { sink: Sink::Output, bytes: triplet(status, first, second) }
}

/// A three-byte message for the controller.
pub open spec fn feedback(status: u8, first: u8, second: u8) -> Sent {
    Sent { sink: Sink::Feedback, bytes: triplet(status, first, second) }
}

/// The message that sets the indicator light at `note` on the controller: a
/// note-on to light it, a note-off to put it out.
pub open spec fn light(note: u8, lit: bool) -> Sent {
    feedback(
        status_byte(
            DEVICE_CHANNEL,
            if lit {
                NOTE_ON
            } else {
                NOTE_OFF
            },
        ),
        note,
        FULL_VELOCITY,
    )
}

/// The messages recorded so far, oldest first.
pub struct Outbox {
    pub emissions: Vec<Emission>,
}

impl View for Outbox {
    type V = Seq<Sent>;

    open spec fn view(&self) -> Seq<Sent> {
        self.emissions@.map_values(|e: Emission| e@)
    }
}

impl Outbox {
    /// An outbox with nothing recorded.
    pub fn new() -> (out: Self)
        ensures
            out@ == Seq::<Sent>::empty(),
    {
        Outbox { emissions: Vec::new() }
    }

    /// The number of messages recorded.
    pub fn len(&self) -> (n: usize)
        ensures
            n == self@.len(),
    {
        self.emissions.len()
    }

    /// Records `bytes` for `sink` after everything recorded before.
    pub fn send(&mut self, sink: Sink, bytes: Vec<u8>)
        ensures
            final(self)@ == old(self)@.push(Sent { sink, bytes: bytes@ }),
    {
        let emission = Emission { sink, bytes };
        self.emissions.push(emission);
        assert(self@ =~= old(self)@.push(emission@));
    }

    /// Records the three-byte message `status, first, second` for `sink`.
    pub fn send_triplet(&mut self, sink: Sink, status: u8, first: u8, second: u8)
        ensures
            final(self)@ == old(self)@.push(Sent { sink, bytes: triplet(status, first, second) }),
    {
        let mut bytes: Vec<u8> = Vec::new();
        bytes.push(status);
        bytes.push(first);
        bytes.push(second);
        assert(bytes@ =~= triplet(status, first, second));
        self.send(sink, bytes);
    }
}

/// Records the message of `kind` on `channel` with data bytes `code` and
/// `data` for the performance software.
pub fn log_send(channel: u8, kind: u8, code: u8, data: u8, out: &mut Outbox)
    ensures
        final(out)@ == old(out)@.push(output(status_byte(channel, kind), code, data)),
{
    out.send_triplet(Sink::Output, make_status(channel, kind), code, data);
}

/// Records the message that lights the indicator at `note`, or puts it out.
pub fn set_light(note: u8, lit: bool, out: &mut Outbox)
    ensures
        final(out)@ == old(out)@.push(light(note, lit)),
{
    let kind = if lit {
        NOTE_ON
    } else {
        NOTE_OFF
    };
    out.send_triplet(Sink::Feedback, make_status(DEVICE_CHANNEL, kind), note, FULL_VELOCITY);
}

} // verus!
