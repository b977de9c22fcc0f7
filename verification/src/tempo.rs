//! The tempo fader: one physical control, three decks, and a pickup filter
//! that keeps a deck from jumping when the fader is handed to it.

use vstd::prelude::*;
use crate::outbox::{light, log_send, output, set_light, Outbox, Sent};
use crate::wire::{
    status_byte, CENTER, CONTROL_CHANGE, DECK1_TEMPO_CC, DECK1_TEMPO_TOGGLE_NOTE,
    DECK2_TEMPO_CC, DECK2_TEMPO_TOGGLE_NOTE, DECK3_TEMPO_CC, DECK3_TEMPO_TOGGLE_NOTE,
    MAX_VALUE, TEMPO_ENCODER_CHANNEL,
};

verus! {

/// The number of decks.
pub const DECKS: usize = 3;

/// On which side of a held value another value lies.
#[derive(Clone, Copy, Debug, PartialEq, Eq, Structural)]
pub enum Side {
    /// The held value is smaller than the other.
    Less,
    /// The two are equal.
    Equal,
    /// The held value is greater than the other.
    Greater,
}

/// The state of the adapter is corrupt.
#[derive(Clone, Copy, Debug, PartialEq, Eq, Structural)]
pub enum InternalError {
    /// The live deck is none of the decks.
    DeckIndexOutOfRange,
}

impl InternalError {
    /// A line that names the error.
    pub fn message(&self) -> (text: &'static str)
        ensures
            text@ == "INTERNAL ERROR: Tempo deck index out of range"@,
    {
        "INTERNAL ERROR: Tempo deck index out of range"
    }
}

/// The three-way comparison of a held value with another.
pub open spec fn compare(held: u8, other: u8) -> Side {
    if held < other {
        Side::Less
    } else if held == other {
        Side::Equal
    } else {
        Side::Greater
    }
}

/// The deck, counted from 0, that a select note makes live.
pub open spec fn tempo_deck(note: u8) -> Option<usize> {
    if note == DECK1_TEMPO_TOGGLE_NOTE {
        Some(0)
    } else if note == DECK2_TEMPO_TOGGLE_NOTE {
        Some(1)
    } else if note == DECK3_TEMPO_TOGGLE_NOTE {
        Some(2)
    } else {
        None
    }
}

/// The outgoing control that carries the tempo of a deck.
pub open spec fn tempo_cc(deck: usize) -> u8 {
    if deck == 0 {
        DECK1_TEMPO_CC
    } else if deck == 1 {
        DECK2_TEMPO_CC
    } else {
        DECK3_TEMPO_CC
    }
}

/// What the selection of a deck sends: for a select note, the indicator of
/// every deck in the order of the decks, lit for the note and put out for the
/// other two; for any other note, nothing.
pub open spec fn select_events(note: u8) -> Seq<Sent> {
    if tempo_deck(note).is_some() {
        seq![
            light(DECK1_TEMPO_TOGGLE_NOTE, note == DECK1_TEMPO_TOGGLE_NOTE),
            light(DECK2_TEMPO_TOGGLE_NOTE, note == DECK2_TEMPO_TOGGLE_NOTE),
            light(DECK3_TEMPO_TOGGLE_NOTE, note == DECK3_TEMPO_TOGGLE_NOTE),
        ]
    } else {
        Seq::empty()
    }
}

/// Compares a held value with another.
pub fn compare_values(held: u8, other: u8) -> (side: Side)
    ensures
        side == compare(held, other),
{
    if held < other {
        Side::Less
    } else if held == other {
        Side::Equal
    } else {
        Side::Greater
    }
}

/// Finds the deck that `note` makes live.
pub fn find_tempo_deck(note: u8) -> (deck: Option<usize>)
    ensures
        deck == tempo_deck(note),
{
    if note == DECK1_TEMPO_TOGGLE_NOTE {
        Some(0)
    } else if note == DECK2_TEMPO_TOGGLE_NOTE {
        Some(1)
    } else if note == DECK3_TEMPO_TOGGLE_NOTE {
        Some(2)
    } else {
        None
    }
}

/// The tempo held for each of three decks, which deck is live, and the last
/// raw position of the fader.
#[derive(Clone, Copy, Debug, PartialEq, Eq, Structural)]
pub struct TempoEncoder {
    pub deck_index: usize,
    pub deck1_value: u8,
    pub deck2_value: u8,
    pub deck3_value: u8,
    pub prev_value: u8,
}

impl TempoEncoder {
    /// The live deck is one of the decks and every position is one a fader
    /// can take.
    pub open spec fn wf(&self) -> bool {
        &&& self.deck_index < DECKS
        &&& self.deck1_value <= MAX_VALUE
        &&& self.deck2_value <= MAX_VALUE
        &&& self.deck3_value <= MAX_VALUE
        &&& self.prev_value <= MAX_VALUE
    }

    /// The first deck live, every tempo and the fader at the midpoint.
    pub open spec fn initial() -> Self {
        TempoEncoder {
            deck_index: 0,
            deck1_value: CENTER,
            deck2_value: CENTER,
            deck3_value: CENTER,
            prev_value: CENTER,
        }
    }

    /// The tempo held for `deck`.
    pub open spec fn value_of(&self, deck: usize) -> u8 {
        if deck == 0 {
            self.deck1_value
        } else if deck == 1 {
            self.deck2_value
        } else {
            self.deck3_value
        }
    }

    /// The tempo held for the live deck.
    pub open spec fn live_value(&self) -> u8 {
        self.value_of(self.deck_index)
    }

    /// This adapter with the tempo of the live deck replaced.
    pub open spec fn with_live_value(self, value: u8) -> Self {
        if self.deck_index == 0 {
            TempoEncoder { deck1_value: value, ..self }
        } else if self.deck_index == 1 {
            TempoEncoder { deck2_value: value, ..self }
        } else {
            TempoEncoder { deck3_value: value, ..self }
        }
    }

    /// Whether the pickup filter holds `raw` back: the fader is on the same
    /// side of the live tempo as it was at its last position, so it has not
    /// passed through the live tempo yet.
    pub open spec fn holds_back(&self, raw: u8) -> bool {
        compare(self.live_value(), raw) == compare(self.live_value(), self.prev_value)
    }

    /// The adapter after the fader moved to `raw`. With a corrupt deck index
    /// nothing changes. Else the last position becomes `raw`, and unless the
    /// pickup filter holds `raw` back the live tempo becomes `raw` too.
    pub open spec fn after_adjust(self, raw: u8) -> Self {
        if self.deck_index >= DECKS {
            self
        } else if self.holds_back(raw) {
            TempoEncoder { prev_value: raw, ..self }
        } else {
            TempoEncoder { prev_value: raw, ..self.with_live_value(raw) }
        }
    }

    /// What a move of the fader to `raw` sends: nothing where the deck index
    /// is corrupt or the pickup filter holds `raw` back; else one control
    /// change for the live deck, on the tempo channel, that carries `raw`
    /// counted from the other end of the range.
    pub open spec fn adjust_events(self, raw: u8) -> Seq<Sent> {
        if self.deck_index >= DECKS || self.holds_back(raw) {
            Seq::empty()
        } else {
            seq![
                output(
                    status_byte(TEMPO_ENCODER_CHANNEL, CONTROL_CHANGE),
                    tempo_cc(self.deck_index),
                    (MAX_VALUE - raw) as u8,
                ),
            ]
        }
    }

    /// The adapter after a note event: a select note makes its deck live; any
    /// other note changes nothing.
    pub open spec fn after_select(self, note: u8) -> Self {
        match tempo_deck(note) {
            Some(deck) => TempoEncoder { deck_index: deck, ..self },
            None => self,
        }
    }

    /// The adapter after the fader visited the positions `raws` in turn.
    pub open spec fn after_stream(self, raws: Seq<u8>) -> Self
        decreases raws.len(),
    {
        if raws.len() == 0 {
            self
        } else {
            self.after_stream(raws.drop_last()).after_adjust(raws.last())
        }
    }

    /// Everything sent while the fader visited the positions `raws` in turn.
    pub open spec fn stream_events(self, raws: Seq<u8>) -> Seq<Sent>
        decreases raws.len(),
    {
        if raws.len() == 0 {
            Seq::empty()
        } else {
            self.stream_events(raws.drop_last()) + self.after_stream(
                raws.drop_last(),
            ).adjust_events(raws.last())
        }
    }

    /// Handles a note event. Returns whether `note` is a select note. A
    /// select note makes its deck live and sets the indicators of all three
    /// decks.
    pub fn select_deck(&mut self, note: u8, out: &mut Outbox) -> (handled: bool)
        ensures
            handled == tempo_deck(note).is_some(),
            *final(self) == old(self).after_select(note),
            final(out)@ == old(out)@ + select_events(note),
            old(self).wf() ==> final(self).wf(),
    {
        match find_tempo_deck(note) {
            Some(deck) => {
                self.deck_index = deck;
                set_light(DECK1_TEMPO_TOGGLE_NOTE, note == DECK1_TEMPO_TOGGLE_NOTE, out);
                set_light(DECK2_TEMPO_TOGGLE_NOTE, note == DECK2_TEMPO_TOGGLE_NOTE, out);
                set_light(DECK3_TEMPO_TOGGLE_NOTE, note == DECK3_TEMPO_TOGGLE_NOTE, out);
                assert(out@ =~= old(out)@ + select_events(note));
                true
            },
            None => {
                assert(out@ =~= old(out)@ + select_events(note));
                false
            },
        }
    }

    /// Handles a move of the fader to `data`. Fails, and changes nothing,
    /// where the deck index is corrupt, whatever `data` is. Else the move is
    /// remembered as the last position; it reaches the live deck, and is sent
    /// on, only once the fader has passed through the tempo held for that
    /// deck. What is sent is `data` counted from the other end of the range,
    /// so `data` has to lie in the range.
    pub fn adjust(&mut self, data: u8, out: &mut Outbox) -> (result: Result<(), InternalError>)
        requires
            old(self).deck_index < DECKS ==> data <= MAX_VALUE,
        ensures
            result is Err <==> old(self).deck_index >= DECKS,
            *final(self) == old(self).after_adjust(data),
            final(out)@ == old(out)@ + old(self).adjust_events(data),
            forall|i: int|
                old(out)@.len() <= i < final(out)@.len() ==> (#[trigger] final(out)@[i]).bytes[2]
                    == MAX_VALUE - data,
            old(self).wf() ==> final(self).wf(),
    {
        let (cc, live) = if self.deck_index == 0 {
            (DECK1_TEMPO_CC, self.deck1_value)
        } else if self.deck_index == 1 {
            (DECK2_TEMPO_CC, self.deck2_value)
        } else if self.deck_index == 2 {
            (DECK3_TEMPO_CC, self.deck3_value)
        } else {
            assert(out@ =~= old(out)@ + old(self).adjust_events(data));
            return Err(InternalError::DeckIndexOutOfRange);
        };
        let prev_side = compare_values(live, self.prev_value);
        self.prev_value = data;
        if compare_values(live, data) == prev_side {
            assert(out@ =~= old(out)@ + old(self).adjust_events(data));
            return Ok(());
        }
        if self.deck_index == 0 {
            self.deck1_value = data;
        } else if self.deck_index == 1 {
            self.deck2_value = data;
        } else {
            self.deck3_value = data;
        }
        log_send(TEMPO_ENCODER_CHANNEL, CONTROL_CHANGE, cc, MAX_VALUE - data, out);
        assert(out@ =~= old(out)@ + old(self).adjust_events(data));
        Ok(())
    }
}

impl Default for TempoEncoder {
    /// The first deck live, every tempo and the fader at the midpoint.
    fn default() -> (tempo: Self)
        ensures
            tempo == Self::initial(),
    {
        TempoEncoder {
            deck_index: 0,
            deck1_value: CENTER,
            deck2_value: CENTER,
            deck3_value: CENTER,
            prev_value: CENTER,
        }
    }
}

/// Whenever a move of the fader is taken up, exactly one message is sent, and
/// the value it carries and the position of the fader add up to the top of
/// the range.
pub proof fn lemma_accepted_move_is_inverted(tempo: TempoEncoder, raw: u8)
    requires
        tempo.deck_index < DECKS,
        raw <= MAX_VALUE,
        !tempo.holds_back(raw),
    ensures
        tempo.after_adjust(raw).live_value() == raw,
        tempo.adjust_events(raw) == seq![
            output(
                status_byte(TEMPO_ENCODER_CHANNEL, CONTROL_CHANGE),
                tempo_cc(tempo.deck_index),
                (MAX_VALUE - raw) as u8,
            ),
        ],
        tempo.adjust_events(raw)[0].bytes[2] + raw == MAX_VALUE,
{
}

/// While the fader stays on the side of the live tempo where it was last
/// seen, nothing is sent and no tempo changes, however far it moves away and
/// back; only the last position follows it.
pub proof fn lemma_same_side_is_silent(tempo: TempoEncoder, raws: Seq<u8>)
    requires
        tempo.deck_index < DECKS,
        forall|i: int|
            0 <= i < raws.len() ==> compare(tempo.live_value(), #[trigger] raws[i]) == compare(
                tempo.live_value(),
                tempo.prev_value,
            ),
    ensures
        tempo.stream_events(raws) == Seq::<Sent>::empty(),
        tempo.after_stream(raws) == (TempoEncoder {
            prev_value: if raws.len() == 0 {
                tempo.prev_value
            } else {
                raws.last()
            },
            ..tempo
        }),
    decreases raws.len(),
{
    if raws.len() > 0 {
        let front = raws.drop_last();
        assert forall|i: int| 0 <= i < front.len() implies compare(
            tempo.live_value(),
            #[trigger] front[i],
        ) == compare(tempo.live_value(), tempo.prev_value) by {
            assert(front[i] == raws[i]);
        }
        lemma_same_side_is_silent(tempo, front);
        if front.len() > 0 {
            assert(front.last() == raws[front.len() - 1]);
        }
        assert(tempo.stream_events(raws) =~= Seq::<Sent>::empty());
    }
}

/// After any moves on one side of the live tempo, the first position that is
/// not on that side is taken up: exactly one message is sent over the whole
/// stream, it carries that position counted from the other end of the range,
/// and the live tempo becomes that position.
pub proof fn lemma_crossing_is_sent_once(tempo: TempoEncoder, raws: Seq<u8>, crossing: u8)
    requires
        tempo.deck_index < DECKS,
        crossing <= MAX_VALUE,
        forall|i: int|
            0 <= i < raws.len() ==> compare(tempo.live_value(), #[trigger] raws[i]) == compare(
                tempo.live_value(),
                tempo.prev_value,
            ),
        compare(tempo.live_value(), crossing) != compare(tempo.live_value(), tempo.prev_value),
    ensures
        tempo.stream_events(raws.push(crossing)) == seq![
            output(
                status_byte(TEMPO_ENCODER_CHANNEL, CONTROL_CHANGE),
                tempo_cc(tempo.deck_index),
                (MAX_VALUE - crossing) as u8,
            ),
        ],
        tempo.after_stream(raws.push(crossing)).live_value() == crossing,
{
    let stream = raws.push(crossing);
    assert(stream.drop_last() =~= raws);
    assert(stream.last() == crossing);
    lemma_same_side_is_silent(tempo, raws);
    let before = tempo.after_stream(raws);
    if raws.len() > 0 {
        assert(compare(tempo.live_value(), raws[raws.len() - 1]) == compare(
            tempo.live_value(),
            tempo.prev_value,
        ));
    }
    assert(!before.holds_back(crossing));
    assert(tempo.stream_events(stream) =~= before.adjust_events(crossing));
}

} // verus!
