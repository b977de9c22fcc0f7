//! Wire format and the fixed control tables.
//!
//! A message is a status byte followed by data bytes. The high nibble of the
//! status byte is the message kind, the low nibble the channel.

use vstd::prelude::*;

verus! {

/// Channel of genuine controller messages and of messages relayed without
/// substantial change.
pub const DEVICE_CHANNEL: u8 = 0xF;

/// Channel of the synthesized note sent for an "up" tick of an encoder that
/// acts as a button.
pub const FAKE_BUTTON_UP_CHANNEL: u8 = 0xE;

/// Channel of the synthesized note sent for a "down" tick of an encoder that
/// acts as a button.
pub const FAKE_BUTTON_DOWN_CHANNEL: u8 = 0xD;

/// Channel of the per-deck filter positions.
pub const FILTER_ENCODER_CHANNEL: u8 = 0xC;

/// Channel of the per-deck tempo positions.
pub const TEMPO_ENCODER_CHANNEL: u8 = 0xB;

pub const NOTE_OFF: u8 = 0x80;

pub const NOTE_ON: u8 = 0x90;

pub const CONTROL_CHANGE: u8 = 0xB0;

/// Data byte an encoder reports for one tick clockwise.
pub const TICK_UP: u8 = 1;

/// Data byte an encoder reports for one tick counter-clockwise.
pub const TICK_DOWN: u8 = 127;

/// Largest value a control can take.
pub const MAX_VALUE: u8 = 127;

/// Neutral midpoint of a control.
pub const CENTER: u8 = 63;

/// Velocity of every synthesized note.
pub const FULL_VELOCITY: u8 = 127;

/// Distance from a filter toggle note to the note of its indicator light.
pub const INDICATOR_OFFSET: u8 = 0x48;

pub const HEADPHONE_MIX_CC: u8 = 20;

pub const HEADPHONE_VOLUME_CC: u8 = 21;

pub const MASTER_VOLUME_CC: u8 = 3;

pub const DECK1_LOOP_CC: u8 = 1;

pub const DECK2_LOOP_CC: u8 = 2;

pub const DECK3_LOOP_CC: u8 = 0;

/// Incoming control of the shared filter knob.
pub const FILTER_CC: u8 = 15;

pub const DECK1_FILTER_TOGGLE_NOTE: u8 = 0x29;

pub const DECK2_FILTER_TOGGLE_NOTE: u8 = 0x2A;

pub const DECK3_FILTER_TOGGLE_NOTE: u8 = 0x28;

/// Outgoing controls of the per-deck filter positions.
pub const DECK1_FILTER_CC: u8 = 1;

pub const DECK2_FILTER_CC: u8 = 2;

pub const DECK3_FILTER_CC: u8 = 0;

/// Incoming control of the shared tempo fader.
pub const TEMPO_CC: u8 = 19;

pub const DECK1_TEMPO_TOGGLE_NOTE: u8 = 0x23;

pub const DECK2_TEMPO_TOGGLE_NOTE: u8 = 0x1F;

pub const DECK3_TEMPO_TOGGLE_NOTE: u8 = 0x27;

/// Outgoing controls of the per-deck tempo positions.
pub const DECK1_TEMPO_CC: u8 = 1;

pub const DECK2_TEMPO_CC: u8 = 2;

pub const DECK3_TEMPO_CC: u8 = 0;

/// The status byte of a message of `kind` on `channel`.
pub open spec fn status_byte(channel: u8, kind: u8) -> u8 {
    channel | kind
}

/// The kind of a message: its status byte with the channel nibble cleared.
pub open spec fn message_kind(status: u8) -> u8 {
    status & !DEVICE_CHANNEL
}

/// The three bytes of a message with two data bytes.
pub open spec fn triplet(status: u8, first: u8, second: u8) -> Seq<u8> {
    seq![status, first, second]
}

/// Computes the status byte of a message of `kind` on `channel`.
pub fn make_status(channel: u8, kind: u8) -> (status: u8)
    ensures
        status == status_byte(channel, kind),
{
    channel | kind
}

/// Extracts the kind of a message from its status byte.
pub fn kind_of(status: u8) -> (kind: u8)
    ensures
        kind == message_kind(status),
{
    status & !DEVICE_CHANNEL
}

/// The status bytes of every message this crate synthesizes, written out.
pub proof fn lemma_status_bytes()
    ensures
        status_byte(DEVICE_CHANNEL, CONTROL_CHANGE) == 0xBF,
        status_byte(DEVICE_CHANNEL, NOTE_ON) == 0x9F,
        status_byte(DEVICE_CHANNEL, NOTE_OFF) == 0x8F,
        status_byte(FAKE_BUTTON_UP_CHANNEL, NOTE_ON) == 0x9E,
        status_byte(FAKE_BUTTON_DOWN_CHANNEL, NOTE_ON) == 0x9D,
        status_byte(FILTER_ENCODER_CHANNEL, CONTROL_CHANGE) == 0xBC,
        status_byte(TEMPO_ENCODER_CHANNEL, CONTROL_CHANGE) == 0xBB,
{
    assert(0xFu8 | 0xB0u8 == 0xBF) by (bit_vector);
    assert(0xFu8 | 0x90u8 == 0x9F) by (bit_vector);
    assert(0xFu8 | 0x80u8 == 0x8F) by (bit_vector);
    assert(0xEu8 | 0x90u8 == 0x9E) by (bit_vector);
    assert(0xDu8 | 0x90u8 == 0x9D) by (bit_vector);
    assert(0xCu8 | 0xB0u8 == 0xBC) by (bit_vector);
    assert(0xBu8 | 0xB0u8 == 0xBB) by (bit_vector);
}

/// The kind of a message of one of the three kinds, on any channel, is read
/// back from its status byte.
pub proof fn lemma_kind_of_status(channel: u8, kind: u8)
    requires
        channel <= DEVICE_CHANNEL,
        kind == NOTE_OFF || kind == NOTE_ON || kind == CONTROL_CHANGE,
    ensures
        message_kind(status_byte(channel, kind)) == kind,
{
    assert((channel | 0x80u8) & !0xFu8 == 0x80) by (bit_vector)
        requires
            channel <= 0xF,
    ;
    assert((channel | 0x90u8) & !0xFu8 == 0x90) by (bit_vector)
        requires
            channel <= 0xF,
    ;
    assert((channel | 0xB0u8) & !0xFu8 == 0xB0) by (bit_vector)
        requires
            channel <= 0xF,
    ;
}

} // verus!
