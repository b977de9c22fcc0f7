//! An encoder that reports relative ticks, presented as an absolute knob.

use vstd::prelude::*;
use crate::outbox::{log_send, output, Outbox};
use crate::wire::{
    status_byte, CENTER, CONTROL_CHANGE, DEVICE_CHANNEL, MAX_VALUE, TICK_DOWN, TICK_UP,
};

verus! {

/// How far one tick moves the knob.
pub const STEP: u8 = 3;

/// Whether `code` is one of the two codes an encoder reports for a tick.
pub open spec fn is_tick(code: u8) -> bool {
    code == TICK_UP || code == TICK_DOWN
}

/// The signed movement that a tick code asks for: one step up, one step down,
/// or nothing for a code that is no tick.
pub open spec fn tick_delta(code: u8) -> int {
    if code == TICK_UP {
        STEP as int
    } else if code == TICK_DOWN {
        -(STEP as int)
    } else {
        0
    }
}

/// `position` brought back into the range of a knob.
pub open spec fn clamp(position: int) -> int {
    if position < 0 {
        0
    } else if position > MAX_VALUE {
        MAX_VALUE as int
    } else {
        position
    }
}

/// The knob position after one tick code.
pub open spec fn after_tick(value: u8, code: u8) -> u8 {
    clamp(value + tick_delta(code)) as u8
}

/// The knob position after a sequence of tick codes, first code first.
pub open spec fn after_ticks(value: u8, codes: Seq<u8>) -> u8
    decreases codes.len(),
{
    if codes.len() == 0 {
        value
    } else {
        after_tick(after_ticks(value, codes.drop_last()), codes.last())
    }
}

/// The sum of the movements that a sequence of tick codes asks for.
pub open spec fn net_ticks(codes: Seq<u8>) -> int
    decreases codes.len(),
{
    if codes.len() == 0 {
        0
    } else {
        net_ticks(codes.drop_last()) + tick_delta(codes.last())
    }
}

/// Integrates encoder ticks into an absolute position.
#[derive(Clone, Copy, Debug, PartialEq, Eq, Structural)]
pub struct FakePotEncoder {
    pub value: u8,
}

impl FakePotEncoder {
    /// The position is one a knob can take.
    pub open spec fn wf(&self) -> bool {
        self.value <= MAX_VALUE
    }

    /// A knob at its midpoint.
    pub open spec fn initial() -> Self {
        FakePotEncoder { value: CENTER }
    }

    /// Applies one tick code. A code that is no tick moves nothing. The
    /// position stops at either end of the range and never wraps.
    pub fn add(&mut self, data: u8)
        ensures
            final(self).value == after_tick(old(self).value, data),
            final(self).wf(),
    {
        let moved = if data == TICK_UP {
            self.value.saturating_add(STEP)
        } else if data == TICK_DOWN {
            self.value.saturating_sub(STEP)
        } else {
            self.value
        };
        self.value = if moved > MAX_VALUE {
            MAX_VALUE
        } else {
            moved
        };
    }

    /// Records the current position as control `cc` on the device channel.
    pub fn send(&self, cc: u8, out: &mut Outbox)
        ensures
            final(out)@ == old(out)@.push(
                output(status_byte(DEVICE_CHANNEL, CONTROL_CHANGE), cc, self.value),
            ),
    {
        log_send(DEVICE_CHANNEL, CONTROL_CHANGE, cc, self.value, out);
    }
}

impl Default for FakePotEncoder {
    /// A knob at its midpoint.
    fn default() -> (pot: Self)
        ensures
            pot == Self::initial(),
    {
        FakePotEncoder { value: CENTER }
    }
}

/// Whatever codes arrive, a position inside the range stays inside it.
pub proof fn lemma_ticks_stay_in_range(value: u8, codes: Seq<u8>)
    requires
        value <= MAX_VALUE,
    ensures
        after_ticks(value, codes) <= MAX_VALUE,
    decreases codes.len(),
{
    if codes.len() > 0 {
        lemma_ticks_stay_in_range(value, codes.drop_last());
    }
}

/// As long as the running sum of the steps, counted from the starting
/// position, has not left the range, the position is the starting position
/// plus the net sum of the steps.
pub proof fn lemma_ticks_track_net_sum(value: u8, codes: Seq<u8>)
    requires
        forall|k: int|
            0 <= k <= codes.len() ==> 0 <= value + #[trigger] net_ticks(codes.take(k))
                <= MAX_VALUE,
    ensures
        after_ticks(value, codes) == value + net_ticks(codes),
    decreases codes.len(),
{
    if codes.len() > 0 {
        let front = codes.drop_last();
        assert forall|k: int| 0 <= k <= front.len() implies 0 <= value + #[trigger] net_ticks(
            front.take(k),
        ) <= MAX_VALUE by {
            assert(front.take(k) =~= codes.take(k));
        }
        lemma_ticks_track_net_sum(value, front);
        assert(codes.take(codes.len() as int) =~= codes);
    }
}

/// The position follows the ticks in their direction: of two knobs fed the
/// same codes, the one that started lower never ends higher.
pub proof fn lemma_ticks_keep_order(low: u8, high: u8, codes: Seq<u8>)
    requires
        low <= high,
    ensures
        after_ticks(low, codes) <= after_ticks(high, codes),
    decreases codes.len(),
{
    if codes.len() > 0 {
        lemma_ticks_keep_order(low, high, codes.drop_last());
    }
}

/// One more upward tick never lowers the position and one more downward tick
/// never raises it, clamped or not.
pub proof fn lemma_tick_direction(value: u8, code: u8)
    requires
        value <= MAX_VALUE,
    ensures
        code == TICK_UP ==> after_tick(value, code) >= value,
        code == TICK_DOWN ==> after_tick(value, code) <= value,
        code != TICK_UP && code != TICK_DOWN ==> after_tick(value, code) == value,
{
}

} // verus!
