//! The serial console menu: `led` asks for a colour, a colour asks for a
//! brightness, a number below 100 sets that LED; `help` shows the banner.
//! Commands are matched whole and without regard to case.
use vstd::prelude::*;

use crate::color::Color;
use crate::decimal::parse_u16;
use crate::decimal::spec_parse_u16;
use crate::pwm_brightness::duty_for;
use crate::pwm_brightness::lemma_duty_bounded;
use crate::pwm_brightness::spec_duty;

verus! {

/// A brightness the console accepts is below this, in percent.
pub const BRIGHTNESS_LIMIT: u16 = 100;

/// The command word `led`.
pub open spec fn word_led() -> Seq<u8> {
    seq![108u8, 101, 100]
}

/// The command word `help`.
pub open spec fn word_help() -> Seq<u8> {
    seq![104u8, 101, 108, 112]
}

/// The colour word `red`.
pub open spec fn word_red() -> Seq<u8> {
    seq![114u8, 101, 100]
}

/// The colour word `green`.
pub open spec fn word_green() -> Seq<u8> {
    seq![103u8, 114, 101, 101, 110]
}

/// The colour word `blue`.
pub open spec fn word_blue() -> Seq<u8> {
    seq![98u8, 108, 117, 101]
}

/// `input` is `word` (written in lower-case letters), each letter either in
/// lower case or in upper case.
pub open spec fn spec_matches_word(input: Seq<u8>, word: Seq<u8>) -> bool {
    &&& input.len() == word.len()
    &&& forall|i: int|
        0 <= i < input.len() ==> (#[trigger] input[i] == word[i] || input[i] + 32 == word[i])
}

/// Whether `input` is `word`, letter by letter in either case (for a `word`
/// written in lower-case letters).
pub fn matches_word(input: &[u8], word: &[u8]) -> (r: bool)
    ensures
        r == spec_matches_word(input@, word@),
{
    if input.len() != word.len() {
        return false;
    }
    let n = input.len();
    let mut i: usize = 0;
    while i < n
        invariant
            n == input@.len(),
            n == word@.len(),
            i <= n,
            forall|j: int| 0 <= j < i ==> (#[trigger] input@[j] == word@[j] || input@[j] + 32 == word@[j]),
        decreases n - i,
    {
        let c = input[i];
        let w = word[i];
        if c != w && (c as u16) + 32 != (w as u16) {
            return false;
        }
        i = i + 1;
    }
    true
}

/// Where the menu stands.
#[derive(Clone, Copy, Debug, PartialEq, Eq, Structural)]
pub enum MenuState {
    /// Waiting for a command.
    Main,
    /// Waiting for the name of a colour.
    LedColor,
    /// Waiting for the brightness of that colour.
    LedBrightness(Color),
}

/// The brightness, in percent, set for each LED of the RGB LED.
#[derive(Clone, Copy, Debug, PartialEq, Eq, Structural)]
pub struct RgbLed {
    pub red_brightness: u16,
    pub green_brightness: u16,
    pub blue_brightness: u16,
}

impl RgbLed {
    /// All three LEDs at zero.
    pub fn new() -> (led: RgbLed)
        ensures
            led.red_brightness == 0,
            led.green_brightness == 0,
            led.blue_brightness == 0,
    {
        RgbLed { red_brightness: 0, green_brightness: 0, blue_brightness: 0 }
    }

    /// The brightness set for a colour.
    pub open spec fn brightness(self, color: Color) -> u16 {
        match color {
            Color::Red => self.red_brightness,
            Color::Green => self.green_brightness,
            Color::Blue => self.blue_brightness,
        }
    }

    /// This state with the brightness of one colour replaced.
    pub open spec fn with_brightness(self, color: Color, b: u16) -> RgbLed {
        match color {
            Color::Red => RgbLed { red_brightness: b, ..self },
            Color::Green => RgbLed { green_brightness: b, ..self },
            Color::Blue => RgbLed { blue_brightness: b, ..self },
        }
    }

    /// Every brightness is one the console accepts.
    pub open spec fn in_range(self) -> bool {
        &&& self.red_brightness < BRIGHTNESS_LIMIT
        &&& self.green_brightness < BRIGHTNESS_LIMIT
        &&& self.blue_brightness < BRIGHTNESS_LIMIT
    }

    /// Set the brightness of one colour; returns the duty cycle to write to
    /// that colour's PWM channel, whose maximum duty is `max_duty`.
    pub fn set_led(&mut self, color: &Color, brightness: u16, max_duty: u16) -> (duty: u16)
        requires
            spec_duty(max_duty, brightness) <= u16::MAX,
        ensures
            *final(self) == old(self).with_brightness(*color, brightness),
            duty == spec_duty(max_duty, brightness),
    {
        match color {
            Color::Red => self.set_red_led(brightness, max_duty),
            Color::Green => self.set_green_led(brightness, max_duty),
            Color::Blue => self.set_blue_led(brightness, max_duty),
        }
    }

    /// Set the brightness of the red LED; returns the duty cycle for its channel.
    pub fn set_red_led(&mut self, brightness: u16, max_duty: u16) -> (duty: u16)
        requires
            spec_duty(max_duty, brightness) <= u16::MAX,
        ensures
            *final(self) == old(self).with_brightness(Color::Red, brightness),
            duty == spec_duty(max_duty, brightness),
    {
        let duty = duty_for(max_duty, brightness);
        self.red_brightness = brightness;
        duty
    }

    /// Set the brightness of the green LED; returns the duty cycle for its channel.
    pub fn set_green_led(&mut self, brightness: u16, max_duty: u16) -> (duty: u16)
        requires
            spec_duty(max_duty, brightness) <= u16::MAX,
        ensures
            *final(self) == old(self).with_brightness(Color::Green, brightness),
            duty == spec_duty(max_duty, brightness),
    {
        let duty = duty_for(max_duty, brightness);
        self.green_brightness = brightness;
        duty
    }

    /// Set the brightness of the blue LED; returns the duty cycle for its channel.
    pub fn set_blue_led(&mut self, brightness: u16, max_duty: u16) -> (duty: u16)
        requires
            spec_duty(max_duty, brightness) <= u16::MAX,
        ensures
            *final(self) == old(self).with_brightness(Color::Blue, brightness),
            duty == spec_duty(max_duty, brightness),
    {
        let duty = duty_for(max_duty, brightness);
        self.blue_brightness = brightness;
        duty
    }

    /// The brightness of the red LED.
    pub fn get_red_led(&self) -> (b: u16)
        ensures
            b == self.red_brightness,
    {
        self.red_brightness
    }

    /// The brightness of the green LED.
    pub fn get_green_led(&self) -> (b: u16)
        ensures
            b == self.green_brightness,
    {
        self.green_brightness
    }

    /// The brightness of the blue LED.
    pub fn get_blue_led(&self) -> (b: u16)
        ensures
            b == self.blue_brightness,
    {
        self.blue_brightness
    }
}

/// What the console answers to a line (and, for a new brightness, what the
/// hardware is to do).
#[derive(Clone, Copy, Debug, PartialEq, Eq, Structural)]
pub enum Reply {
    /// Ask for a colour: `Select color(Red,Green,Blue): `.
    SelectColor,
    /// Print the banner with the list of commands.
    Banner,
    /// `Unreconised Input`, then the prompt.
    Unrecognised,
    /// Ask for a brightness, showing the current one: `Enter Brightness(n): `.
    EnterBrightness(u16),
    /// Write `duty` to the PWM channel of `color`, then show the prompt.
    BrightnessSet { color: Color, duty: u16 },
    /// The brightness was not a number from 0 to 99; ask again.
    InvalidBrightness,
}

/// The state, LED brightnesses and reply after a line typed in the main menu.
pub open spec fn spec_handle_main(leds: RgbLed, input: Seq<u8>) -> (MenuState, RgbLed, Reply) {
    if spec_matches_word(input, word_led()) {
        (MenuState::LedColor, leds, Reply::SelectColor)
    } else if spec_matches_word(input, word_help()) {
        (MenuState::Main, leds, Reply::Banner)
    } else {
        (MenuState::Main, leds, Reply::Unrecognised)
    }
}

/// ... after a line typed when a colour is asked for.
pub open spec fn spec_handle_led_color(leds: RgbLed, input: Seq<u8>) -> (MenuState, RgbLed, Reply) {
    if spec_matches_word(input, word_red()) {
        (MenuState::LedBrightness(Color::Red), leds, Reply::EnterBrightness(leds.red_brightness))
    } else if spec_matches_word(input, word_green()) {
        (
            MenuState::LedBrightness(Color::Green),
            leds,
            Reply::EnterBrightness(leds.green_brightness),
        )
    } else if spec_matches_word(input, word_blue()) {
        (MenuState::LedBrightness(Color::Blue), leds, Reply::EnterBrightness(leds.blue_brightness))
    } else {
        (MenuState::Main, leds, Reply::Unrecognised)
    }
}

/// ... after a line typed when the brightness of `color` is asked for, the
/// menu being in `state`.
pub open spec fn spec_handle_led_brightness(
    state: MenuState,
    leds: RgbLed,
    input: Seq<u8>,
    color: Color,
    max_duty: u16,
) -> (MenuState, RgbLed, Reply) {
    match spec_parse_u16(input) {
        Some(b) if b < BRIGHTNESS_LIMIT => (
            MenuState::Main,
            leds.with_brightness(color, b),
            Reply::BrightnessSet { color, duty: spec_duty(max_duty, b) as u16 },
        ),
        _ => (state, leds, Reply::InvalidBrightness),
    }
}

/// ... after a line typed in state `state`.
pub open spec fn spec_handle_input(
    state: MenuState,
    leds: RgbLed,
    input: Seq<u8>,
    max_duty: u16,
) -> (MenuState, RgbLed, Reply) {
    match state {
        MenuState::Main => spec_handle_main(leds, input),
        MenuState::LedColor => spec_handle_led_color(leds, input),
        MenuState::LedBrightness(color) => spec_handle_led_brightness(
            state,
            leds,
            input,
            color,
            max_duty,
        ),
    }
}

/// The line with every ASCII upper-case letter turned to lower case.
pub open spec fn ascii_lowercase(s: Seq<u8>) -> Seq<u8> {
    Seq::new(s.len(), |i: int| if 65 <= s[i] <= 90 { (s[i] + 32) as u8 } else { s[i] })
}

/// The colour word naming a colour.
pub open spec fn color_word(c: Color) -> Seq<u8> {
    match c {
        Color::Red => word_red(),
        Color::Green => word_green(),
        Color::Blue => word_blue(),
    }
}

/// A word in lower-case letters matches a line exactly when it matches the
/// line in lower case.
proof fn lemma_match_ignores_case(input: Seq<u8>, word: Seq<u8>)
    requires
        forall|i: int| 0 <= i < word.len() ==> 97 <= #[trigger] word[i] <= 122,
    ensures
        spec_matches_word(input, word) == spec_matches_word(ascii_lowercase(input), word),
{
    let low = ascii_lowercase(input);
    if spec_matches_word(input, word) {
        assert forall|i: int| 0 <= i < low.len() implies (#[trigger] low[i] == word[i] || low[i] + 32 == word[i]) by {
            assert(input[i] == word[i] || input[i] + 32 == word[i]);
        }
    }
    if spec_matches_word(low, word) {
        assert forall|i: int| 0 <= i < input.len() implies (#[trigger] input[i] == word[i] || input[i] + 32 == word[i]) by {
            assert(low[i] == word[i] || low[i] + 32 == word[i]);
        }
    }
}

/// A line parses to the same number as the line in lower case.
proof fn lemma_parse_ignores_case(input: Seq<u8>)
    ensures
        crate::decimal::spec_parse_u16(input) == crate::decimal::spec_parse_u16(ascii_lowercase(input)),
{
    let low = ascii_lowercase(input);
    let d = crate::decimal::unsigned_digits(input);
    let dl = crate::decimal::unsigned_digits(low);
    assert(low.len() == input.len());
    assert(input.len() > 0 ==> (low[0] == 43 <==> input[0] == 43));
    assert forall|i: int| 0 <= i < d.len() implies #[trigger] dl[i] == (if 65 <= d[i] <= 90 { (d[i] + 32) as u8 } else { d[i] }) by {
        if input.len() > 0 && input[0] == 43 {
            assert(d[i] == input[i + 1]);
            assert(dl[i] == low[i + 1]);
        } else {
            assert(d[i] == input[i]);
            assert(dl[i] == low[i]);
        }
    }
    if crate::decimal::all_digits(d) {
        assert(dl =~= d);
    } else {
        let k = choose|k: int| 0 <= k < d.len() && !crate::decimal::is_digit(#[trigger] d[k]);
        assert(!crate::decimal::is_digit(dl[k]));
    }
}

/// Commands, colour names and numbers are read without regard to case: a
/// line and the same line in lower case lead to the same state, brightnesses
/// and reply.
pub proof fn lemma_input_case_insensitive(state: MenuState, leds: RgbLed, input: Seq<u8>, max_duty: u16)
    ensures
        spec_handle_input(state, leds, input, max_duty) == spec_handle_input(
            state,
            leds,
            ascii_lowercase(input),
            max_duty,
        ),
{
    lemma_match_ignores_case(input, word_led());
    lemma_match_ignores_case(input, word_help());
    lemma_match_ignores_case(input, word_red());
    lemma_match_ignores_case(input, word_green());
    lemma_match_ignores_case(input, word_blue());
    lemma_parse_ignores_case(input);
}

/// Every line keeps each brightness below 100 percent.
pub proof fn lemma_brightness_stays_in_range(state: MenuState, leds: RgbLed, input: Seq<u8>, max_duty: u16)
    requires
        leds.in_range(),
    ensures
        spec_handle_input(state, leds, input, max_duty).1.in_range(),
{
}

/// A line that is not a number below 100, typed when a brightness is asked
/// for, changes nothing and is answered with a refusal.
pub proof fn lemma_refused_brightness_changes_nothing(
    color: Color,
    leds: RgbLed,
    input: Seq<u8>,
    max_duty: u16,
)
    requires
        !(crate::decimal::spec_parse_u16(input) matches Some(b) && b < BRIGHTNESS_LIMIT),
    ensures
        spec_handle_input(MenuState::LedBrightness(color), leds, input, max_duty) == (
            MenuState::LedBrightness(color),
            leds,
            Reply::InvalidBrightness,
        ),
{
}

/// A brightness that was set is the one shown when that colour is chosen
/// again: after setting `color` to `b`, typing `led` and the colour's name
/// asks for the brightness showing `b`.
pub proof fn lemma_set_brightness_is_shown(
    color: Color,
    leds: RgbLed,
    input: Seq<u8>,
    max_duty: u16,
)
    requires
        crate::decimal::spec_parse_u16(input) matches Some(b) && b < BRIGHTNESS_LIMIT,
    ensures
        ({
            let b = crate::decimal::spec_parse_u16(input).unwrap();
            let s1 = spec_handle_input(MenuState::LedBrightness(color), leds, input, max_duty);
            let s2 = spec_handle_input(s1.0, s1.1, word_led(), max_duty);
            let s3 = spec_handle_input(s2.0, s2.1, color_word(color), max_duty);
            &&& s1.0 == MenuState::Main
            &&& s2.0 == MenuState::LedColor
            &&& s3.0 == MenuState::LedBrightness(color)
            &&& s3.2 == Reply::EnterBrightness(b)
        }),
{
    assert(spec_matches_word(word_led(), word_led()));
    assert(spec_matches_word(color_word(color), color_word(color)));
    assert(!spec_matches_word(word_green(), word_red()));
    assert(!spec_matches_word(word_blue(), word_red()));
    assert(word_blue()[0] != word_green()[0]);
    assert(!spec_matches_word(word_blue(), word_green()));
}

/// A number below 100 typed when the brightness of colour `c` is asked for
/// sets exactly that colour: its brightness becomes the number, the other two
/// colours keep theirs, the duty `(max_duty / 100) * b` goes to `c`'s own
/// channel, and the menu returns to the main menu.
pub proof fn lemma_accepted_brightness_sets_only_its_colour(
    c: Color,
    leds: RgbLed,
    input: Seq<u8>,
    max_duty: u16,
    b: u16,
)
    requires
        crate::decimal::spec_parse_u16(input) == Some(b),
        b < 100,
    ensures
        ({
            let r = spec_handle_input(MenuState::LedBrightness(c), leds, input, max_duty);
            &&& r.0 == MenuState::Main
            &&& r.2 == Reply::BrightnessSet { color: c, duty: ((max_duty / 100) * b) as u16 }
            &&& (max_duty / 100) * b <= max_duty
            &&& r.1.red_brightness == (if c == Color::Red { b } else { leds.red_brightness })
            &&& r.1.green_brightness == (if c == Color::Green { b } else { leds.green_brightness })
            &&& r.1.blue_brightness == (if c == Color::Blue { b } else { leds.blue_brightness })
        }),
{
    lemma_duty_bounded(max_duty, b);
}

/// Lines typed in the main menu or when a colour is asked for never change
/// any brightness: only a number typed for a colour does.
pub proof fn lemma_menu_lines_keep_brightness(leds: RgbLed, input: Seq<u8>, max_duty: u16)
    ensures
        spec_handle_input(MenuState::Main, leds, input, max_duty).1 == leds,
        spec_handle_input(MenuState::LedColor, leds, input, max_duty).1 == leds,
{
}

/// Choosing a colour shows the brightness stored for that colour.
pub proof fn lemma_colour_choice_shows_its_brightness(c: Color, leds: RgbLed, max_duty: u16)
    ensures
        ({
            let r = spec_handle_input(MenuState::LedColor, leds, color_word(c), max_duty);
            &&& r.0 == MenuState::LedBrightness(c)
            &&& r.2 == Reply::EnterBrightness(
                match c {
                    Color::Red => leds.red_brightness,
                    Color::Green => leds.green_brightness,
                    Color::Blue => leds.blue_brightness,
                },
            )
        }),
{
    assert(spec_matches_word(color_word(c), color_word(c)));
    assert(!spec_matches_word(word_green(), word_red()));
    assert(!spec_matches_word(word_blue(), word_red()));
    assert(word_blue()[0] != word_green()[0]);
    assert(!spec_matches_word(word_blue(), word_green()));
}

/// The serial menu: where it stands and the brightness of each LED.
#[derive(Clone, Copy, Debug, PartialEq, Eq, Structural)]
pub struct SerialMenu {
    pub state: MenuState,
    pub leds: RgbLed,
}

impl SerialMenu {
    /// The menu at start-up: in the main menu, all LEDs at zero.
    pub fn new() -> (m: SerialMenu)
        ensures
            m.state == MenuState::Main,
            m.leds == (RgbLed { red_brightness: 0, green_brightness: 0, blue_brightness: 0 }),
    {
        SerialMenu { state: MenuState::Main, leds: RgbLed::new() }
    }

    /// Handle one line typed on the console. `max_duty` is the maximum duty
    /// of the LED PWM channels.
    pub fn handle_input(&mut self, input: &[u8], max_duty: u16) -> (r: Reply)
        ensures
            (final(self).state, final(self).leds, r) == spec_handle_input(
                old(self).state,
                old(self).leds,
                input@,
                max_duty,
            ),
    {
        match self.state {
            MenuState::Main => self.handle_main(input),
            MenuState::LedColor => self.handle_led_color(input),
            MenuState::LedBrightness(color) => self.handle_led_brightness(input, &color, max_duty),
        }
    }

    /// Handle a line typed in the main menu.
    pub fn handle_main(&mut self, input: &[u8]) -> (r: Reply)
        ensures
            (final(self).state, final(self).leds, r) == spec_handle_main(old(self).leds, input@),
    {
        let led: [u8; 3] = [108, 101, 100]; // "led"
        let help: [u8; 4] = [104, 101, 108, 112]; // "help"
        assert(led@ =~= word_led());
        assert(help@ =~= word_help());
        if matches_word(input, &led) {
            self.state = MenuState::LedColor;
            Reply::SelectColor
        } else if matches_word(input, &help) {
            self.state = MenuState::Main;
            Reply::Banner
        } else {
            self.state = MenuState::Main;
            Reply::Unrecognised
        }
    }

    /// Handle a line typed when a colour is asked for.
    pub fn handle_led_color(&mut self, input: &[u8]) -> (r: Reply)
        ensures
            (final(self).state, final(self).leds, r) == spec_handle_led_color(old(self).leds, input@),
    {
        let red: [u8; 3] = [114, 101, 100]; // "red"
        let green: [u8; 5] = [103, 114, 101, 101, 110]; // "green"
        let blue: [u8; 4] = [98, 108, 117, 101]; // "blue"
        assert(red@ =~= word_red());
        assert(green@ =~= word_green());
        assert(blue@ =~= word_blue());
        if matches_word(input, &red) {
            self.state = MenuState::LedBrightness(Color::Red);
            Reply::EnterBrightness(self.leds.get_red_led())
        } else if matches_word(input, &green) {
            self.state = MenuState::LedBrightness(Color::Green);
            Reply::EnterBrightness(self.leds.get_green_led())
        } else if matches_word(input, &blue) {
            self.state = MenuState::LedBrightness(Color::Blue);
            Reply::EnterBrightness(self.leds.get_blue_led())
        } else {
            self.state = MenuState::Main;
            Reply::Unrecognised
        }
    }

    /// Handle a line typed when the brightness of `color` is asked for: a
    /// number below 100 sets it and returns to the main menu; anything else
    /// is refused and the menu stays where it is.
    pub fn handle_led_brightness(&mut self, input: &[u8], color: &Color, max_duty: u16) -> (r: Reply)
        ensures
            (final(self).state, final(self).leds, r) == spec_handle_led_brightness(
                old(self).state,
                old(self).leds,
                input@,
                *color,
                max_duty,
            ),
    {
        match parse_u16(input) {
            Some(value) => {
                if value < BRIGHTNESS_LIMIT {
                    proof {
                        lemma_duty_bounded(max_duty, value);
                    }
                    let duty = self.leds.set_led(color, value, max_duty);
                    self.state = MenuState::Main;
                    Reply::BrightnessSet { color: *color, duty }
                } else {
                    Reply::InvalidBrightness
                }
            },
            None => Reply::InvalidBrightness,
        }
    }
}

} // verus!
