//! Brightness control of a PWM-driven LED with two buttons: both together
//! switch the LED off and on, the first alone brightens it by one percent, the
//! second alone dims it by one percent.
use vstd::prelude::*;

verus! {

/// The highest brightness, in percent.
pub const MAX_BRIGHTNESS: u16 = 100;

/// The brightness the LED starts with, in percent.
pub const INITIAL_BRIGHTNESS: u16 = 20;

/// The duty cycle for a brightness in percent: the timer's maximum duty
/// divided by 100 (rounding down), times the brightness.
pub open spec fn spec_duty(max_duty: u16, brightness: u16) -> int {
    (max_duty / 100) as int * brightness as int
}

/// The duty cycle that shows `brightness` percent on a channel whose maximum
/// duty is `max_duty`.
pub fn duty_for(max_duty: u16, brightness: u16) -> (duty: u16)
    requires
        spec_duty(max_duty, brightness) <= u16::MAX,
    ensures
        duty == spec_duty(max_duty, brightness),
        brightness <= MAX_BRIGHTNESS ==> duty <= max_duty,
{
    let one_percent_duty: u16 = max_duty / 100;
    assert(brightness <= 100 ==> one_percent_duty * brightness <= max_duty) by (nonlinear_arith)
        requires
            one_percent_duty == max_duty / 100,
    ;
    one_percent_duty * brightness
}

/// At most 100 percent, the duty cycle never exceeds the maximum duty, so it
/// fits in 16 bits.
pub proof fn lemma_duty_bounded(max_duty: u16, brightness: u16)
    requires
        brightness <= MAX_BRIGHTNESS,
    ensures
        spec_duty(max_duty, brightness) <= max_duty,
{
    assert((max_duty / 100) as int * brightness as int <= max_duty) by (nonlinear_arith)
        requires
            brightness <= 100,
    ;
}

/// A higher brightness never gives a lower duty cycle.
pub proof fn lemma_duty_monotonic(max_duty: u16, a: u16, b: u16)
    requires
        a <= b,
    ensures
        spec_duty(max_duty, a) <= spec_duty(max_duty, b),
{
    assert((max_duty / 100) as int * a as int <= (max_duty / 100) as int * b as int) by (nonlinear_arith)
        requires
            a <= b,
            0 <= max_duty / 100,
    ;
}

/// What the controller asks of the hardware after one poll of the buttons.
#[derive(Clone, Copy, Debug, PartialEq, Eq, Structural)]
pub struct PwmCommand {
    /// `Some(true)`: enable the PWM output; `Some(false)`: disable it.
    pub switch: Option<bool>,
    /// `Some(b)`: the brightness changed to `b` percent, to be reported.
    pub report: Option<u16>,
}

/// State of the button-controlled PWM LED.
#[derive(Clone, Copy, Debug, PartialEq, Eq, Structural)]
pub struct PwmLed {
    pub led_on: bool,
    pub led_brightness: u16,
}

impl PwmLed {
    /// The brightness never exceeds 100 percent.
    pub open spec fn wf(&self) -> bool {
        self.led_brightness <= MAX_BRIGHTNESS
    }

    /// The state at start-up: on, at 20 percent.
    pub fn new() -> (s: PwmLed)
        ensures
            s.wf(),
            s.led_on,
            s.led_brightness == INITIAL_BRIGHTNESS,
    {
        PwmLed { led_on: true, led_brightness: INITIAL_BRIGHTNESS }
    }

    /// The state after one poll of the buttons, and what is asked of the
    /// hardware: both pressed toggle the LED; the first alone raises the
    /// brightness by one up to 100 and reports it; the second alone lowers it
    /// by one down to 0 and reports it; a change that would leave the range
    /// does nothing.
    pub open spec fn spec_step(self, btn1: bool, btn2: bool) -> (PwmLed, PwmCommand) {
        if btn1 && btn2 {
            (
                PwmLed { led_on: !self.led_on, ..self },
                PwmCommand { switch: Some(!self.led_on), report: None },
            )
        } else if btn1 && self.led_brightness < MAX_BRIGHTNESS {
            let b = (self.led_brightness + 1) as u16;
            (PwmLed { led_brightness: b, ..self }, PwmCommand { switch: None, report: Some(b) })
        } else if !btn1 && btn2 && self.led_brightness > 0 {
            let b = (self.led_brightness - 1) as u16;
            (PwmLed { led_brightness: b, ..self }, PwmCommand { switch: None, report: Some(b) })
        } else {
            (self, PwmCommand { switch: None, report: None })
        }
    }

    /// One poll of the two buttons (`true` = pressed).
    pub fn handle_buttons(&mut self, btn1: bool, btn2: bool) -> (cmd: PwmCommand)
        requires
            old(self).wf(),
        ensures
            final(self).wf(),
            (*final(self), cmd) == old(self).spec_step(btn1, btn2),
    {
        if btn1 && btn2 {
            self.led_on = !self.led_on;
            PwmCommand { switch: Some(self.led_on), report: None }
        } else if btn1 {
            if self.led_brightness < MAX_BRIGHTNESS {
                self.led_brightness = self.led_brightness + 1;
                PwmCommand { switch: None, report: Some(self.led_brightness) }
            } else {
                PwmCommand { switch: None, report: None }
            }
        } else if btn2 {
            if self.led_brightness > 0 {
                self.led_brightness = self.led_brightness - 1;
                PwmCommand { switch: None, report: Some(self.led_brightness) }
            } else {
                PwmCommand { switch: None, report: None }
            }
        } else {
            PwmCommand { switch: None, report: None }
        }
    }

    /// The duty cycle for the current brightness, given the timer's maximum duty.
    pub fn duty(&self, max_duty: u16) -> (duty: u16)
        requires
            self.wf(),
        ensures
            duty == spec_duty(max_duty, self.led_brightness),
            duty <= max_duty,
    {
        proof {
            lemma_duty_bounded(max_duty, self.led_brightness);
        }
        duty_for(max_duty, self.led_brightness)
    }
}

/// Pressing both buttons twice restores the state, and leaves the
/// brightness alone in between.
pub proof fn lemma_toggle_twice(s: PwmLed)
    ensures
        s.spec_step(true, true).0.led_brightness == s.led_brightness,
        s.spec_step(true, true).0.spec_step(true, true).0 == s,
{
}

/// Below full brightness, a step up followed by a step down restores the
/// state; above zero, a step down followed by a step up does too.
pub proof fn lemma_up_down_inverse(s: PwmLed)
    requires
        s.wf(),
    ensures
        s.led_brightness < MAX_BRIGHTNESS ==> s.spec_step(true, false).0.spec_step(false, true).0 == s,
        s.led_brightness > 0 ==> s.spec_step(false, true).0.spec_step(true, false).0 == s,
{
}

/// The first button alone raises the brightness by one percent and reports
/// it, the second alone lowers it by one and reports it, whether the LED is
/// on or off; at the end of the range nothing changes and nothing is
/// reported; both together only switch the LED.
pub proof fn lemma_buttons_change_brightness(s: PwmLed)
    requires
        s.wf(),
    ensures
        s.led_brightness < 100 ==> s.spec_step(true, false) == (
            PwmLed { led_on: s.led_on, led_brightness: (s.led_brightness + 1) as u16 },
            PwmCommand { switch: None, report: Some((s.led_brightness + 1) as u16) },
        ),
        s.led_brightness == 100 ==> s.spec_step(true, false) == (
            s,
            PwmCommand { switch: None, report: None },
        ),
        s.led_brightness > 0 ==> s.spec_step(false, true) == (
            PwmLed { led_on: s.led_on, led_brightness: (s.led_brightness - 1) as u16 },
            PwmCommand { switch: None, report: Some((s.led_brightness - 1) as u16) },
        ),
        s.led_brightness == 0 ==> s.spec_step(false, true) == (
            s,
            PwmCommand { switch: None, report: None },
        ),
        s.spec_step(true, true) == (
            PwmLed { led_on: !s.led_on, led_brightness: s.led_brightness },
            PwmCommand { switch: Some(!s.led_on), report: None },
        ),
        s.spec_step(false, false) == (s, PwmCommand { switch: None, report: None }),
{
}

/// Every poll keeps the brightness within 0 to 100 percent.
pub proof fn lemma_step_keeps_range(s: PwmLed, btn1: bool, btn2: bool)
    requires
        s.wf(),
    ensures
        s.spec_step(btn1, btn2).0.wf(),
{
}

} // verus!
