//! Verified control logic for a small RGB-LED / button / serial-console board.
use vstd::prelude::*;

pub mod color;
pub mod rgb_cycle;
pub mod pwm_brightness;
pub mod decimal;
pub mod line_editor;
pub mod serial_menu;
pub mod console;
pub mod display;
pub mod blink;
pub mod loop_counter;

verus! {

} // verus!
