//! Blinking all three LEDs together: on for a period, off for a period.
use vstd::prelude::*;

use crate::color::PinLevels;

verus! {

/// How long each phase of the blink lasts, in milliseconds.
pub const BLINK_PERIOD_MS: u16 = 1000;

/// Which phase the blinking is in.
#[derive(Clone, Copy, Debug, PartialEq, Eq, Structural)]
pub struct Blinker {
    pub lit: bool,
}

/// Pin levels with all three LEDs on (`lit`) or all off.
pub open spec fn all_levels(lit: bool) -> PinLevels {
    PinLevels { red: lit, green: lit, blue: lit }
}

impl Blinker {
    /// Before the first phase: dark, so that the first phase lights the LEDs.
    pub fn new() -> (b: Blinker)
        ensures
            !b.lit,
    {
        Blinker { lit: false }
    }

    /// The blinker after the next phase starts, and the levels it shows.
    pub open spec fn spec_tick(self) -> (Blinker, PinLevels) {
        (Blinker { lit: !self.lit }, all_levels(!self.lit))
    }

    /// Start the next phase: switch all LEDs from on to off or from off to
    /// on, and return the pin levels to drive for it.
    pub fn tick(&mut self) -> (l: PinLevels)
        ensures
            (*final(self), l) == old(self).spec_tick(),
    {
        self.lit = !self.lit;
        PinLevels { red: self.lit, green: self.lit, blue: self.lit }
    }
}

/// Two ticks bring the blinker back where it was, and the two phases
/// they start show opposite levels: all LEDs on in one, all off in the other.
pub proof fn lemma_blink_period_two(b: Blinker)
    ensures
        b.spec_tick().0.spec_tick().0 == b,
        b.spec_tick().1 != b.spec_tick().0.spec_tick().1,
        b.spec_tick().1 == all_levels(b.spec_tick().0.lit),
{
}

} // verus!
