//! The filter knob: one shared position, switched on and off per deck.

use vstd::prelude::*;
use crate::outbox::{light, log_send, output, set_light, Outbox, Sent};
use crate::wire::{
    status_byte, CENTER, CONTROL_CHANGE, DECK1_FILTER_CC, DECK1_FILTER_TOGGLE_NOTE,
    DECK2_FILTER_CC, DECK2_FILTER_TOGGLE_NOTE, DECK3_FILTER_CC, DECK3_FILTER_TOGGLE_NOTE,
    FILTER_ENCODER_CHANNEL, INDICATOR_OFFSET, MAX_VALUE,
};

verus! {

/// The deck, counted from 0, whose filter a toggle note switches.
pub open spec fn filter_deck(note: u8) -> Option<usize> {
    if note == DECK1_FILTER_TOGGLE_NOTE {
        Some(0)
    } else if note == DECK2_FILTER_TOGGLE_NOTE {
        Some(1)
    } else if note == DECK3_FILTER_TOGGLE_NOTE {
        Some(2)
    } else {
        None
    }
}

/// The outgoing control that carries the filter position of a deck.
pub open spec fn filter_cc(deck: usize) -> u8 {
    if deck == 0 {
        DECK1_FILTER_CC
    } else if deck == 1 {
        DECK2_FILTER_CC
    } else {
        DECK3_FILTER_CC
    }
}

/// The message that sets the indicator light of a toggle note. The light sits
/// a fixed distance above the note.
pub open spec fn indicator(note: u8, lit: bool) -> Sent {
    light((note + INDICATOR_OFFSET) as u8, lit)
}

/// Finds the deck whose filter `note` switches.
pub fn find_filter_deck(note: u8) -> (deck: Option<usize>)
    ensures
        deck == filter_deck(note),
{
    if note == DECK1_FILTER_TOGGLE_NOTE {
        Some(0)
    } else if note == DECK2_FILTER_TOGGLE_NOTE {
        Some(1)
    } else if note == DECK3_FILTER_TOGGLE_NOTE {
        Some(2)
    } else {
        None
    }
}

/// One shared filter position and, for each of three decks, whether the
/// filter acts on it.
#[derive(Clone, Copy, Debug, PartialEq, Eq, Structural)]
pub struct FilterEncoder {
    pub deck1: bool,
    pub deck2: bool,
    pub deck3: bool,
    pub state: u8,
}

impl FilterEncoder {
    /// The shared position is one a knob can take.
    pub open spec fn wf(&self) -> bool {
        self.state <= MAX_VALUE
    }

    /// The filter at its midpoint, acting on no deck.
    pub open spec fn initial() -> Self {
        FilterEncoder { deck1: false, deck2: false, deck3: false, state: CENTER }
    }

    /// Whether the filter acts on `deck`.
    pub open spec fn enabled(&self, deck: usize) -> bool {
        if deck == 0 {
            self.deck1
        } else if deck == 1 {
            self.deck2
        } else {
            self.deck3
        }
    }

    /// This filter with `deck` switched over and nothing else changed.
    pub open spec fn flipped(self, deck: usize) -> Self {
        if deck == 0 {
            FilterEncoder { deck1: !self.deck1, ..self }
        } else if deck == 1 {
            FilterEncoder { deck2: !self.deck2, ..self }
        } else {
            FilterEncoder { deck3: !self.deck3, ..self }
        }
    }

    /// The position that `deck` is told: the shared one where the filter acts
    /// on it, the midpoint where it does not.
    pub open spec fn deck_value(&self, deck: usize) -> u8 {
        if self.enabled(deck) {
            self.state
        } else {
            CENTER
        }
    }

    /// The combined state: one control change per deck, in the order of the
    /// decks, on the filter channel.
    pub open spec fn combined(&self) -> Seq<Sent> {
        seq![
            output(
                status_byte(FILTER_ENCODER_CHANNEL, CONTROL_CHANGE),
                filter_cc(0),
                self.deck_value(0),
            ),
            output(
                status_byte(FILTER_ENCODER_CHANNEL, CONTROL_CHANGE),
                filter_cc(1),
                self.deck_value(1),
            ),
            output(
                status_byte(FILTER_ENCODER_CHANNEL, CONTROL_CHANGE),
                filter_cc(2),
                self.deck_value(2),
            ),
        ]
    }

    /// The filter after a toggle event: a press of a toggle note switches its
    /// deck over; a release, or any other note, changes nothing.
    pub open spec fn after_toggle(self, note: u8, pressed: bool) -> Self {
        match filter_deck(note) {
            Some(deck) if pressed => self.flipped(deck),
            _ => self,
        }
    }

    /// What a toggle event sends: for a press of a toggle note the combined
    /// state after the switch, then the indicator of that note; else nothing.
    pub open spec fn toggle_events(self, note: u8, pressed: bool) -> Seq<Sent> {
        match filter_deck(note) {
            Some(deck) if pressed => self.flipped(deck).combined().push(
                indicator(note, self.flipped(deck).enabled(deck)),
            ),
            _ => Seq::empty(),
        }
    }

    /// The filter after `count` presses of `note`.
    pub open spec fn after_presses(self, note: u8, count: nat) -> Self
        decreases count,
    {
        if count == 0 {
            self
        } else {
            self.after_presses(note, (count - 1) as nat).after_toggle(note, true)
        }
    }

    /// Handles a note event. Returns whether `note` is a filter toggle. A
    /// press switches the deck of the note over, sends the combined state and
    /// sets the indicator of the note; a release is taken and ignored.
    pub fn toggle(&mut self, note: u8, pressed: bool, out: &mut Outbox) -> (handled: bool)
        ensures
            handled == filter_deck(note).is_some(),
            *final(self) == old(self).after_toggle(note, pressed),
            final(out)@ == old(out)@ + old(self).toggle_events(note, pressed),
            old(self).wf() ==> final(self).wf(),
    {
        match find_filter_deck(note) {
            Some(deck) => {
                if !pressed {
                    assert(out@ =~= old(out)@ + old(self).toggle_events(note, pressed));
                    return true;
                }
                let enabled = if deck == 0 {
                    self.deck1 = !self.deck1;
                    self.deck1
                } else if deck == 1 {
                    self.deck2 = !self.deck2;
                    self.deck2
                } else {
                    self.deck3 = !self.deck3;
                    self.deck3
                };
                self.send(out);
                set_light(note + INDICATOR_OFFSET, enabled, out);
                assert(out@ =~= old(out)@ + old(self).toggle_events(note, pressed));
                true
            },
            None => {
                assert(out@ =~= old(out)@ + old(self).toggle_events(note, pressed));
                false
            },
        }
    }

    /// Stores `data` as the shared position and sends the combined state.
    pub fn adjust(&mut self, data: u8, out: &mut Outbox)
        ensures
            *final(self) == (FilterEncoder { state: data, ..*old(self) }),
            final(out)@ == old(out)@ + final(self).combined(),
            data <= MAX_VALUE ==> final(self).wf(),
    {
        self.state = data;
        self.send(out);
    }

    /// Sends the combined state.
    pub fn send(&self, out: &mut Outbox)
        ensures
            final(out)@ == old(out)@ + self.combined(),
    {
        let first = if self.deck1 {
            self.state
        } else {
            CENTER
        };
        let second = if self.deck2 {
            self.state
        } else {
            CENTER
        };
        let third = if self.deck3 {
            self.state
        } else {
            CENTER
        };
        log_send(FILTER_ENCODER_CHANNEL, CONTROL_CHANGE, DECK1_FILTER_CC, first, out);
        log_send(FILTER_ENCODER_CHANNEL, CONTROL_CHANGE, DECK2_FILTER_CC, second, out);
        log_send(FILTER_ENCODER_CHANNEL, CONTROL_CHANGE, DECK3_FILTER_CC, third, out);
        assert(out@ =~= old(out)@ + self.combined());
    }
}

impl Default for FilterEncoder {
    /// The filter at its midpoint, acting on no deck.
    fn default() -> (filter: Self)
        ensures
            filter == Self::initial(),
    {
        FilterEncoder { deck1: false, deck2: false, deck3: false, state: CENTER }
    }
}

/// Pressing a toggle note twice leaves the filter as it was.
pub proof fn lemma_two_presses_restore(filter: FilterEncoder, note: u8)
    ensures
        filter.after_toggle(note, true).after_toggle(note, true) == filter,
{
}

/// An even number of presses of a toggle note leaves every deck as it was, so
/// a deck that started switched off is switched off again; an odd number
/// leaves the filter as one press does.
pub proof fn lemma_presses_by_parity(filter: FilterEncoder, note: u8, count: nat)
    ensures
        count % 2 == 0 ==> filter.after_presses(note, count) == filter,
        count % 2 == 1 ==> filter.after_presses(note, count) == filter.after_toggle(note, true),
    decreases count,
{
    if count > 0 {
        lemma_presses_by_parity(filter, note, (count - 1) as nat);
        lemma_two_presses_restore(filter, note);
    }
}

/// A deck on which the filter does not act is told the midpoint, whatever the
/// shared position is.
pub proof fn lemma_disabled_deck_centered(filter: FilterEncoder, deck: usize)
    requires
        deck < 3,
        !filter.enabled(deck),
    ensures
        filter.combined()[deck as int] == output(
            status_byte(FILTER_ENCODER_CHANNEL, CONTROL_CHANGE),
            filter_cc(deck),
            CENTER,
        ),
        filter.combined()[deck as int].bytes[2] == CENTER,
{
}

} // verus!
