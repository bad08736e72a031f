//! Two ways of stepping the RGB LED through red, green and blue with two
//! buttons: a polled loop that keeps the colour as a small signed number, and
//! an interrupt-driven one that keeps it as a `Color`.
use vstd::prelude::*;

use crate::color::Color;
use crate::color::PinLevels;

verus! {

/// How far one pass of the polled loop moves the colour: the first button
/// steps forward and wins over the second, which steps back.
pub open spec fn button_step(up_pressed: bool, down_pressed: bool) -> int {
    if up_pressed {
        1
    } else if down_pressed {
        -1
    } else {
        0
    }
}

/// One pass of the polled loop: add one when the first button is pressed,
/// else subtract one when the second is, then wrap a value below zero to two
/// and a value above two to zero.
pub fn next_color_index(color: i8, up_pressed: bool, down_pressed: bool) -> (next: i8)
    requires
        0 <= color <= 2,
    ensures
        0 <= next <= 2,
        next == (color + button_step(up_pressed, down_pressed)) % 3,
        next == Color::from_index(color + button_step(up_pressed, down_pressed)).index(),
{
    let mut c: i8 = color;
    if up_pressed {
        c = c + 1;
    } else if down_pressed {
        c = c - 1;
    }
    if c < 0 {
        c = 2;
    } else if c > 2 {
        c = 0;
    }
    c
}

/// Pin levels for a colour kept as its position 0 (red), 1 (green) or 2 (blue).
pub fn index_levels(color: i8) -> (l: PinLevels)
    requires
        0 <= color <= 2,
    ensures
        l == Color::from_index(color as int).spec_levels(),
{
    if color == 0 {
        PinLevels { red: true, green: false, blue: false }
    } else if color == 1 {
        PinLevels { red: false, green: true, blue: false }
    } else {
        PinLevels { red: false, green: false, blue: true }
    }
}

/// The RGB LED of the interrupt-driven loop: which colour is lit.
#[derive(Clone, Copy, Debug, PartialEq, Eq, Structural)]
pub struct RgbLed {
    pub active_color: Color,
}

impl RgbLed {
    /// The LED as it starts: red.
    pub fn new() -> (led: RgbLed)
        ensures
            led.active_color == Color::Red,
    {
        RgbLed { active_color: Color::Red }
    }

    /// Pin levels that show the active colour.
    pub fn update_output(&self) -> (l: PinLevels)
        ensures
            l == self.active_color.spec_levels(),
    {
        self.active_color.levels()
    }

    /// Step to the next colour (red, green, blue, red) and return the pin
    /// levels that show it.
    pub fn cycle_up(&mut self) -> (l: PinLevels)
        ensures
            final(self).active_color == old(self).active_color.spec_next(),
            l == final(self).active_color.spec_levels(),
    {
        self.active_color = self.active_color.next();
        self.update_output()
    }

    /// Step to the previous colour (red, blue, green, red) and return the pin
    /// levels that show it.
    pub fn cycle_down(&mut self) -> (l: PinLevels)
        ensures
            final(self).active_color == old(self).active_color.spec_prev(),
            l == final(self).active_color.spec_levels(),
    {
        self.active_color = self.active_color.prev();
        self.update_output()
    }
}

/// The polled loop and the interrupt-driven loop agree: a press of the
/// first button moves the polled colour number exactly as `cycle_up` moves the
/// colour, a press of the second alone as `cycle_down` does, and the pin
/// levels of the number are those of the colour.
pub proof fn lemma_polled_matches_interrupt(color: int, c: Color)
    requires
        0 <= color <= 2,
        c.index() == color,
    ensures
        Color::from_index(color + button_step(true, false)) == c.spec_next(),
        Color::from_index(color + button_step(false, true)) == c.spec_prev(),
        Color::from_index(color + button_step(false, false)) == c,
        Color::from_index(color).spec_levels() == c.spec_levels(),
{
}

} // verus!
