//! Stateless handlers for buttons and for encoders that act as buttons.

use vstd::prelude::*;
use crate::outbox::{log_send, output, Outbox, Sent};
use crate::wire::{
    status_byte, DEVICE_CHANNEL, FAKE_BUTTON_DOWN_CHANNEL, FAKE_BUTTON_UP_CHANNEL,
    FULL_VELOCITY, NOTE_ON, TICK_DOWN, TICK_UP,
};

verus! {

/// What a tick of an encoder that acts as a button gives: one note at full
/// velocity, on the channel that tells the direction; nothing for a code that
/// is no tick.
pub open spec fn fake_button_events(cc: u8, data: u8) -> Seq<Sent> {
    if data == TICK_UP {
        seq![output(status_byte(FAKE_BUTTON_UP_CHANNEL, NOTE_ON), cc, FULL_VELOCITY)]
    } else if data == TICK_DOWN {
        seq![output(status_byte(FAKE_BUTTON_DOWN_CHANNEL, NOTE_ON), cc, FULL_VELOCITY)]
    } else {
        Seq::empty()
    }
}

/// Relays a button event as a note-on on the device channel, press and
/// release alike: the software wants the same signal for both.
pub fn handle_button(note: u8, data: u8, out: &mut Outbox)
    ensures
        final(out)@ == old(out)@.push(output(status_byte(DEVICE_CHANNEL, NOTE_ON), note, data)),
{
    log_send(DEVICE_CHANNEL, NOTE_ON, note, data, out);
}

/// Turns an encoder tick on control `cc` into a button note. A code that is
/// no tick is dropped.
pub fn handle_fake_button(cc: u8, data: u8, out: &mut Outbox)
    ensures
        final(out)@ == old(out)@ + fake_button_events(cc, data),
{
    if data == TICK_UP {
        log_send(FAKE_BUTTON_UP_CHANNEL, NOTE_ON, cc, FULL_VELOCITY, out);
    } else if data == TICK_DOWN {
        log_send(FAKE_BUTTON_DOWN_CHANNEL, NOTE_ON, cc, FULL_VELOCITY, out);
    }
    assert(out@ =~= old(out)@ + fake_button_events(cc, data));
}

} // verus!
