//! The dispatcher: one adapter per control family, and the routing of every
//! incoming controller message to the adapter that owns it.

use vstd::prelude::*;
use vstd::slice::slice_to_vec;
use crate::button::{fake_button_events, handle_button, handle_fake_button};
use crate::filter::{filter_deck, FilterEncoder};
use crate::outbox::{output, Outbox, Sent, Sink};
use crate::pot::{after_tick, is_tick, FakePotEncoder};
use crate::tempo::{select_events, tempo_deck, InternalError, TempoEncoder, DECKS};
use crate::wire::{
    kind_of, lemma_kind_of_status, lemma_status_bytes, message_kind, status_byte,
    CONTROL_CHANGE, DECK1_LOOP_CC, DECK2_LOOP_CC, DECK3_LOOP_CC, DEVICE_CHANNEL,
    FAKE_BUTTON_DOWN_CHANNEL, FAKE_BUTTON_UP_CHANNEL, FILTER_CC, FILTER_ENCODER_CHANNEL,
    HEADPHONE_MIX_CC, HEADPHONE_VOLUME_CC, MASTER_VOLUME_CC, MAX_VALUE, NOTE_OFF, NOTE_ON,
    TEMPO_CC, TEMPO_ENCODER_CHANNEL, TICK_DOWN, TICK_UP,
};

verus! {

/// Whether `cc` is one of the loop encoders, which act as buttons.
pub open spec fn is_loop_cc(cc: u8) -> bool {
    cc == DECK1_LOOP_CC || cc == DECK2_LOOP_CC || cc == DECK3_LOOP_CC
}

/// Whether `cc` is one of the encoders that are presented as knobs.
pub open spec fn is_pot_cc(cc: u8) -> bool {
    cc == HEADPHONE_MIX_CC || cc == HEADPHONE_VOLUME_CC || cc == MASTER_VOLUME_CC
}

/// Whether an adapter owns the control `cc`.
pub open spec fn cc_known(cc: u8) -> bool {
    is_pot_cc(cc) || is_loop_cc(cc) || cc == FILTER_CC || cc == TEMPO_CC
}

/// Whether `kind` is one of the two note kinds.
pub open spec fn is_note(kind: u8) -> bool {
    kind == NOTE_ON || kind == NOTE_OFF
}

/// Whether `message` is relayed as it is: it has not three bytes, it is a
/// control change that no adapter owns, or it is neither a control change nor
/// a note event.
pub open spec fn is_relayed(message: Seq<u8>) -> bool {
    ||| message.len() != 3
    ||| message_kind(message[0]) == CONTROL_CHANGE && !cc_known(message[1])
    ||| message_kind(message[0]) != CONTROL_CHANGE && !is_note(message_kind(message[0]))
}

/// `message` relayed as it is to the performance software.
pub open spec fn verbatim(message: Seq<u8>) -> Seq<Sent> {
    seq![Sent { sink: Sink::Output, bytes: message }]
}

/// Whether `message` is a turn of a knob or of a loop encoder with a code
/// that is no tick: a three-byte control change on one of those controls
/// whose data byte is neither of the two tick codes.
pub open spec fn has_unknown_code(message: Seq<u8>) -> bool {
    &&& message.len() == 3
    &&& message_kind(message[0]) == CONTROL_CHANGE
    &&& (is_pot_cc(message[1]) || is_loop_cc(message[1]))
    &&& !is_tick(message[2])
}

/// Whether the position that `message` carries can be counted from the other
/// end of the range: where it moves the tempo fader, the position is one a
/// fader can take.
pub open spec fn admissible(message: Seq<u8>) -> bool {
    message.len() == 3 && message_kind(message[0]) == CONTROL_CHANGE && message[1] == TEMPO_CC
        ==> message[2] <= MAX_VALUE
}

/// Every data byte of a three-byte message is one the wire format allows.
pub open spec fn data_in_range(message: Seq<u8>) -> bool {
    message.len() == 3 ==> message[1] <= MAX_VALUE && message[2] <= MAX_VALUE
}

/// Everything that is remembered between two messages of one controller.
#[derive(Clone, Copy, Debug, PartialEq, Eq, Structural)]
pub struct State {
    pub headphones_mix: FakePotEncoder,
    pub headphones_volume: FakePotEncoder,
    pub master_volume: FakePotEncoder,
    pub filter_encoder: FilterEncoder,
    pub tempo_encoder: TempoEncoder,
}

impl State {
    /// Every adapter is well formed.
    pub open spec fn wf(&self) -> bool {
        &&& self.headphones_mix.wf()
        &&& self.headphones_volume.wf()
        &&& self.master_volume.wf()
        &&& self.filter_encoder.wf()
        &&& self.tempo_encoder.wf()
    }

    /// The state at the start of a connection: every knob and fader at its
    /// midpoint, the filter acting on no deck, the first deck live.
    pub open spec fn initial() -> Self {
        State {
            headphones_mix: FakePotEncoder::initial(),
            headphones_volume: FakePotEncoder::initial(),
            master_volume: FakePotEncoder::initial(),
            filter_encoder: FilterEncoder::initial(),
            tempo_encoder: TempoEncoder::initial(),
        }
    }

    /// The knob that the control `cc` turns.
    pub open spec fn pot(&self, cc: u8) -> FakePotEncoder
        recommends
            is_pot_cc(cc),
    {
        if cc == HEADPHONE_MIX_CC {
            self.headphones_mix
        } else if cc == HEADPHONE_VOLUME_CC {
            self.headphones_volume
        } else {
            self.master_volume
        }
    }

    /// Whether a control change on `cc` fails: it moves the tempo fader and
    /// the deck index of the tempo adapter is corrupt.
    pub open spec fn cc_fails(&self, cc: u8) -> bool {
        cc == TEMPO_CC && self.tempo_encoder.deck_index >= DECKS
    }

    /// The state after a control change. A knob takes the tick, the filter
    /// stores the position, the tempo adapter applies its pickup filter;
    /// loop encoders and controls that no adapter owns change nothing.
    pub open spec fn after_cc(self, cc: u8, data: u8) -> State {
        if cc == HEADPHONE_MIX_CC {
            State {
                headphones_mix: FakePotEncoder {
                    value: after_tick(self.headphones_mix.value, data),
                },
                ..self
            }
        } else if cc == HEADPHONE_VOLUME_CC {
            State {
                headphones_volume: FakePotEncoder {
                    value: after_tick(self.headphones_volume.value, data),
                },
                ..self
            }
        } else if cc == MASTER_VOLUME_CC {
            State {
                master_volume: FakePotEncoder {
                    value: after_tick(self.master_volume.value, data),
                },
                ..self
            }
        } else if cc == FILTER_CC {
            State { filter_encoder: FilterEncoder { state: data, ..self.filter_encoder }, ..self }
        } else if cc == TEMPO_CC {
            State { tempo_encoder: self.tempo_encoder.after_adjust(data), ..self }
        } else {
            self
        }
    }

    /// Whether [`State::transform`] takes `message` in this state. A tempo
    /// position above the range is taken only where the deck index is
    /// corrupt, since the message then fails before the position is read.
    pub open spec fn takes(&self, message: Seq<u8>) -> bool {
        admissible(message) || self.tempo_encoder.deck_index >= DECKS
    }

    /// What a control change sends. A knob sends, for a tick, its new
    /// position under the control that turned it, a loop encoder its button
    /// note, the filter its combined state, the tempo adapter what its pickup
    /// filter lets through; a code that is no tick and a control that no
    /// adapter owns send nothing here.
    pub open spec fn cc_events(self, cc: u8, data: u8) -> Seq<Sent> {
        if is_pot_cc(cc) {
            if is_tick(data) {
                seq![
                    output(
                        status_byte(DEVICE_CHANNEL, CONTROL_CHANGE),
                        cc,
                        after_tick(self.pot(cc).value, data),
                    ),
                ]
            } else {
                Seq::empty()
            }
        } else if is_loop_cc(cc) {
            fake_button_events(cc, data)
        } else if cc == FILTER_CC {
            (FilterEncoder { state: data, ..self.filter_encoder }).combined()
        } else if cc == TEMPO_CC {
            self.tempo_encoder.adjust_events(data)
        } else {
            Seq::empty()
        }
    }

    /// The state after a note event. The filter has the first claim on the
    /// note, the tempo adapter the second.
    pub open spec fn after_note(self, note: u8, pressed: bool) -> State {
        if filter_deck(note).is_some() {
            State { filter_encoder: self.filter_encoder.after_toggle(note, pressed), ..self }
        } else {
            State { tempo_encoder: self.tempo_encoder.after_select(note), ..self }
        }
    }

    /// What a note event sends: what the filter sends for its toggle notes,
    /// what the tempo adapter sends for its select notes, and for every other
    /// note a note-on with the same note and data on the device channel.
    pub open spec fn note_events(self, note: u8, data: u8, pressed: bool) -> Seq<Sent> {
        if filter_deck(note).is_some() {
            self.filter_encoder.toggle_events(note, pressed)
        } else if tempo_deck(note).is_some() {
            select_events(note)
        } else {
            seq![output(status_byte(DEVICE_CHANNEL, NOTE_ON), note, data)]
        }
    }

    /// Whether `message` fails.
    pub open spec fn fails_on(&self, message: Seq<u8>) -> bool {
        &&& message.len() == 3
        &&& message_kind(message[0]) == CONTROL_CHANGE
        &&& self.cc_fails(message[1])
    }

    /// The state after `message`. Only a three-byte control change or note
    /// event can change it.
    pub open spec fn after_message(self, message: Seq<u8>) -> State {
        if message.len() != 3 {
            self
        } else if message_kind(message[0]) == CONTROL_CHANGE {
            self.after_cc(message[1], message[2])
        } else if is_note(message_kind(message[0])) {
            self.after_note(message[1], message_kind(message[0]) == NOTE_ON)
        } else {
            self
        }
    }

    /// The state after the messages `messages`, first message first.
    pub open spec fn after_messages(self, messages: Seq<Seq<u8>>) -> State
        decreases messages.len(),
    {
        if messages.len() == 0 {
            self
        } else {
            self.after_messages(messages.drop_last()).after_message(messages.last())
        }
    }

    /// What `message` sends. A relayed message is sent as it is; a control
    /// change that an adapter owns and every note event send what the adapter
    /// says.
    pub open spec fn message_events(self, message: Seq<u8>) -> Seq<Sent> {
        if is_relayed(message) {
            verbatim(message)
        } else if message_kind(message[0]) == CONTROL_CHANGE {
            self.cc_events(message[1], message[2])
        } else {
            self.note_events(message[1], message[2], message_kind(message[0]) == NOTE_ON)
        }
    }

    /// The state at the start of a connection.
    pub fn new() -> (state: Self)
        ensures
            state == Self::initial(),
            state.wf(),
    {
        State {
            headphones_mix: FakePotEncoder::default(),
            headphones_volume: FakePotEncoder::default(),
            master_volume: FakePotEncoder::default(),
            filter_encoder: FilterEncoder::default(),
            tempo_encoder: TempoEncoder::default(),
        }
    }

    /// Tells whether [`State::transform`] takes `message` in this state.
    pub fn admits(&self, message: &[u8]) -> (ok: bool)
        ensures
            ok == self.takes(message@),
    {
        if self.tempo_encoder.deck_index >= DECKS {
            true
        } else if message.len() == 3 && kind_of(message[0]) == CONTROL_CHANGE && message[1]
            == TEMPO_CC {
            message[2] <= MAX_VALUE
        } else {
            true
        }
    }

    /// Handles a control change. Returns whether an adapter owns the control
    /// `cc`; fails, and changes nothing, where `cc` moves the tempo fader and
    /// the deck index of the tempo adapter is corrupt. A knob or a loop
    /// encoder with a code that is no tick is taken, and sends nothing.
    pub fn handle_cc(&mut self, cc: u8, data: u8, out: &mut Outbox) -> (result: Result<
        bool,
        InternalError,
    >)
        requires
            cc == TEMPO_CC && old(self).tempo_encoder.deck_index < DECKS ==> data <= MAX_VALUE,
        ensures
            result is Err <==> old(self).cc_fails(cc),
            result matches Ok(handled) ==> handled == cc_known(cc),
            *final(self) == old(self).after_cc(cc, data),
            final(out)@ == old(out)@ + old(self).cc_events(cc, data),
            (is_pot_cc(cc) || is_loop_cc(cc)) && !is_tick(data) ==> final(out)@ == old(out)@,
            old(self).wf() && data <= MAX_VALUE ==> final(self).wf(),
    {
        let pot_encoder = if cc == HEADPHONE_MIX_CC {
            &mut self.headphones_mix
        } else if cc == HEADPHONE_VOLUME_CC {
            &mut self.headphones_volume
        } else if cc == MASTER_VOLUME_CC {
            &mut self.master_volume
        } else if cc == DECK1_LOOP_CC || cc == DECK2_LOOP_CC || cc == DECK3_LOOP_CC {
            handle_fake_button(cc, data, out);
            return Ok(true);
        } else if cc == FILTER_CC {
            self.filter_encoder.adjust(data, out);
            return Ok(true);
        } else if cc == TEMPO_CC {
            self.tempo_encoder.adjust(data, out)?;
            return Ok(true);
        } else {
            assert(out@ =~= old(out)@ + old(self).cc_events(cc, data));
            return Ok(false);
        };
        pot_encoder.add(data);
        if data == TICK_UP || data == TICK_DOWN {
            pot_encoder.send(cc, out);
        }
        assert(out@ =~= old(out)@ + old(self).cc_events(cc, data));
        Ok(true)
    }

    /// Handles one message of the controller: changes the state and records
    /// in `out`, in order, what is to be delivered.
    ///
    /// A message of any length but three is relayed as it is. A control
    /// change goes to the adapter that owns its control, a note event to the
    /// filter, else to the tempo adapter, else to the button handler.
    /// Every other message is relayed as it is. Fails, with nothing changed
    /// and nothing recorded, where the message moves the tempo fader and the
    /// deck index of the tempo adapter is corrupt. A turn of a knob or of a
    /// loop encoder with a code that is no tick records nothing.
    pub fn transform(&mut self, message: &[u8], out: &mut Outbox) -> (result: Result<
        (),
        InternalError,
    >)
        requires
            old(self).takes(message@),
        ensures
            result is Err <==> old(self).fails_on(message@),
            *final(self) == old(self).after_message(message@),
            result is Ok ==> final(out)@ == old(out)@ + old(self).message_events(message@),
            result is Err ==> *final(self) == *old(self) && final(out)@ == old(out)@,
            is_relayed(message@) ==> result is Ok && *final(self) == *old(self) && final(out)@
                == old(out)@.push(Sent { sink: Sink::Output, bytes: message@ }),
            message@.len() != 3 ==> result is Ok && *final(self) == *old(self) && final(out)@
                == old(out)@.push(Sent { sink: Sink::Output, bytes: message@ }),
            has_unknown_code(message@) ==> result is Ok && final(out)@ == old(out)@,
            has_unknown_code(message@) && old(self).wf() ==> *final(self) == *old(self),
            old(self).wf() && data_in_range(message@) ==> final(self).wf(),
    {
        if message.len() == 3 {
            let kind = kind_of(message[0]);
            if kind == CONTROL_CHANGE {
                if self.handle_cc(message[1], message[2], out)? {
                    return Ok(());
                }
            } else if kind == NOTE_ON || kind == NOTE_OFF {
                let pressed = kind == NOTE_ON;
                if self.filter_encoder.toggle(message[1], pressed, out) {
                    return Ok(());
                } else if self.tempo_encoder.select_deck(message[1], out) {
                    return Ok(());
                } else {
                    handle_button(message[1], message[2], out);
                    assert(out@ =~= old(out)@ + old(self).message_events(message@));
                    return Ok(());
                }
            }
        }
        out.send(Sink::Output, slice_to_vec(message));
        assert(out@ =~= old(out)@ + old(self).message_events(message@));
        Ok(())
    }
}

/// Tells whether `message` is relayed as it is.
pub fn relays(message: &[u8]) -> (relayed: bool)
    ensures
        relayed == is_relayed(message@),
{
    if message.len() != 3 {
        return true;
    }
    let kind = kind_of(message[0]);
    let cc = message[1];
    if kind == CONTROL_CHANGE {
        !(cc == HEADPHONE_MIX_CC || cc == HEADPHONE_VOLUME_CC || cc == MASTER_VOLUME_CC || cc
            == DECK1_LOOP_CC || cc == DECK2_LOOP_CC || cc == DECK3_LOOP_CC || cc == FILTER_CC
            || cc == TEMPO_CC)
    } else {
        !(kind == NOTE_ON || kind == NOTE_OFF)
    }
}

/// Tells whether `message` is a turn of a knob or of a loop encoder with a
/// code that is no tick.
pub fn unknown_code(message: &[u8]) -> (unknown: bool)
    ensures
        unknown == has_unknown_code(message@),
{
    if message.len() != 3 || kind_of(message[0]) != CONTROL_CHANGE {
        return false;
    }
    let cc = message[1];
    let data = message[2];
    (cc == HEADPHONE_MIX_CC || cc == HEADPHONE_VOLUME_CC || cc == MASTER_VOLUME_CC || cc
        == DECK1_LOOP_CC || cc == DECK2_LOOP_CC || cc == DECK3_LOOP_CC) && data != TICK_UP && data
        != TICK_DOWN
}

/// Whether `sent` keeps to the channel convention of synthesized messages:
/// three bytes; to the controller only notes on the device channel; to the
/// software a control change or a note-on on the device channel, a note-on on
/// one of the two button channels, or a control change on the filter or the
/// tempo channel.
pub open spec fn follows_convention(sent: Sent) -> bool {
    &&& sent.bytes.len() == 3
    &&& sent.sink == Sink::Feedback ==> {
        ||| sent.bytes[0] == status_byte(DEVICE_CHANNEL, NOTE_ON)
        ||| sent.bytes[0] == status_byte(DEVICE_CHANNEL, NOTE_OFF)
    }
    &&& sent.sink == Sink::Output ==> {
        ||| sent.bytes[0] == status_byte(DEVICE_CHANNEL, CONTROL_CHANGE)
        ||| sent.bytes[0] == status_byte(DEVICE_CHANNEL, NOTE_ON)
        ||| sent.bytes[0] == status_byte(FAKE_BUTTON_UP_CHANNEL, NOTE_ON)
        ||| sent.bytes[0] == status_byte(FAKE_BUTTON_DOWN_CHANNEL, NOTE_ON)
        ||| sent.bytes[0] == status_byte(FILTER_ENCODER_CHANNEL, CONTROL_CHANGE)
        ||| sent.bytes[0] == status_byte(TEMPO_ENCODER_CHANNEL, CONTROL_CHANGE)
    }
}

/// Whatever a message sends, unless it is the message itself relayed, keeps
/// to the channel convention, and is again a control change or a note event.
pub proof fn lemma_events_follow_convention(state: State, message: Seq<u8>, i: int)
    requires
        !is_relayed(message),
        0 <= i < state.message_events(message).len(),
    ensures
        follows_convention(state.message_events(message)[i]),
        message_kind(state.message_events(message)[i].bytes[0]) == CONTROL_CHANGE || is_note(
            message_kind(state.message_events(message)[i].bytes[0]),
        ),
{
    lemma_status_bytes();
    lemma_kind_of_status(DEVICE_CHANNEL, CONTROL_CHANGE);
    lemma_kind_of_status(DEVICE_CHANNEL, NOTE_ON);
    lemma_kind_of_status(DEVICE_CHANNEL, NOTE_OFF);
    lemma_kind_of_status(FAKE_BUTTON_UP_CHANNEL, NOTE_ON);
    lemma_kind_of_status(FAKE_BUTTON_DOWN_CHANNEL, NOTE_ON);
    lemma_kind_of_status(FILTER_ENCODER_CHANNEL, CONTROL_CHANGE);
    lemma_kind_of_status(TEMPO_ENCODER_CHANNEL, CONTROL_CHANGE);
}

/// A message whose data bytes are in range is one that [`State::transform`]
/// takes in every state, and it leaves a well-formed state well formed.
pub proof fn lemma_message_keeps_wf(state: State, message: Seq<u8>)
    requires
        state.wf(),
        data_in_range(message),
    ensures
        state.takes(message),
        state.after_message(message).wf(),
{
}

/// Messages whose data bytes are in range never lead a well-formed state,
/// such as the one a connection starts in, to one that is not.
pub proof fn lemma_messages_keep_wf(state: State, messages: Seq<Seq<u8>>)
    requires
        state.wf(),
        forall|i: int| 0 <= i < messages.len() ==> data_in_range(#[trigger] messages[i]),
    ensures
        state.after_messages(messages).wf(),
    decreases messages.len(),
{
    if messages.len() > 0 {
        let front = messages.drop_last();
        assert forall|i: int| 0 <= i < front.len() implies data_in_range(#[trigger] front[i]) by {
            assert(front[i] == messages[i]);
        }
        lemma_messages_keep_wf(state, front);
        lemma_message_keeps_wf(state.after_messages(front), messages.last());
    }
}

/// No message corrupts the deck index. Whatever arrives, in range or not, a
/// state whose live deck is one of the decks keeps it so, and no message
/// fails on it.
pub proof fn lemma_messages_never_corrupt(state: State, messages: Seq<Seq<u8>>, next: Seq<u8>)
    requires
        state.tempo_encoder.deck_index < DECKS,
    ensures
        state.after_messages(messages).tempo_encoder.deck_index < DECKS,
        !state.after_messages(messages).fails_on(next),
    decreases messages.len(),
{
    if messages.len() > 0 {
        lemma_messages_never_corrupt(state, messages.drop_last(), messages.last());
    }
}

} // verus!
