//! The three colours of the RGB LED and the pin levels that show one of them.
use vstd::prelude::*;

verus! {

/// One of the three LEDs of the RGB LED.
#[derive(Clone, Copy, Debug, PartialEq, Eq, Structural)]
pub enum Color {
    Red,
    Green,
    Blue,
}

/// Output levels of the three LED pins; `true` drives the pin high (LED on).
#[derive(Clone, Copy, Debug, PartialEq, Eq, Structural)]
pub struct PinLevels {
    pub red: bool,
    pub green: bool,
    pub blue: bool,
}

impl Color {
    /// Position of the colour in the cycle red, green, blue.
    pub open spec fn index(self) -> int {
        match self {
            Color::Red => 0,
            Color::Green => 1,
            Color::Blue => 2,
        }
    }

    /// The colour at a position of the cycle, taken modulo three.
    pub open spec fn from_index(i: int) -> Color {
        let r = i % 3;
        if r == 0 {
            Color::Red
        } else if r == 1 {
            Color::Green
        } else {
            Color::Blue
        }
    }

    /// The colour after this one in the cycle red, green, blue, red.
    pub open spec fn spec_next(self) -> Color {
        match self {
            Color::Red => Color::Green,
            Color::Green => Color::Blue,
            Color::Blue => Color::Red,
        }
    }

    /// The colour before this one in the cycle red, green, blue, red.
    pub open spec fn spec_prev(self) -> Color {
        match self {
            Color::Red => Color::Blue,
            Color::Green => Color::Red,
            Color::Blue => Color::Green,
        }
    }

    /// The next colour of the cycle red, green, blue, red.
    pub fn next(self) -> (c: Color)
        ensures
            c == self.spec_next(),
            c == Color::from_index(self.index() + 1),
    {
        match self {
            Color::Red => Color::Green,
            Color::Green => Color::Blue,
            Color::Blue => Color::Red,
        }
    }

    /// The previous colour of the cycle red, green, blue, red.
    pub fn prev(self) -> (c: Color)
        ensures
            c == self.spec_prev(),
            c == Color::from_index(self.index() - 1),
    {
        match self {
            Color::Red => Color::Blue,
            Color::Green => Color::Red,
            Color::Blue => Color::Green,
        }
    }

    /// Pin levels that light this colour alone.
    pub open spec fn spec_levels(self) -> PinLevels {
        PinLevels {
            red: self == Color::Red,
            green: self == Color::Green,
            blue: self == Color::Blue,
        }
    }

    /// Pin levels that light this colour and switch the other two off.
    pub fn levels(self) -> (l: PinLevels)
        ensures
            l == self.spec_levels(),
    {
        match self {
            Color::Red => PinLevels { red: true, green: false, blue: false },
            Color::Green => PinLevels { red: false, green: true, blue: false },
            Color::Blue => PinLevels { red: false, green: false, blue: true },
        }
    }
}

/// Exactly one of the three pins is high.
pub open spec fn one_led_on(l: PinLevels) -> bool {
    ||| (l.red && !l.green && !l.blue)
    ||| (!l.red && l.green && !l.blue)
    ||| (!l.red && !l.green && l.blue)
}

/// Stepping forward and then back through the colour cycle gives the colour
/// one started from, and so does stepping back and then forward.
pub proof fn lemma_next_prev_inverse(c: Color)
    ensures
        c.spec_next().spec_prev() == c,
        c.spec_prev().spec_next() == c,
{
}

/// Three steps forward through the colour cycle come back to the start.
pub proof fn lemma_next_period_three(c: Color)
    ensures
        c.spec_next().spec_next().spec_next() == c,
        c.spec_prev().spec_prev().spec_prev() == c,
{
}

/// Whatever colour is active, exactly one LED is lit, and it is that colour's.
pub proof fn lemma_levels_one_hot(c: Color)
    ensures
        one_led_on(c.spec_levels()),
        c.spec_levels().red <==> c == Color::Red,
        c.spec_levels().green <==> c == Color::Green,
        c.spec_levels().blue <==> c == Color::Blue,
{
}

/// Positions and colours correspond one to one.
pub proof fn lemma_index_roundtrip(c: Color, i: int)
    ensures
        Color::from_index(c.index()) == c,
        0 <= i < 3 ==> Color::from_index(i).index() == i,
{
}

} // verus!
