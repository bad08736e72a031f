//! The serial console as a whole: each received byte goes through the line
//! editor, and each finished line through the menu.
use vstd::prelude::*;

use crate::line_editor::line_view;
use crate::line_editor::spec_feed;
use crate::line_editor::LineEditor;
use crate::line_editor::LINE_LIMIT;
use crate::serial_menu::spec_handle_input;
use crate::serial_menu::MenuState;
use crate::serial_menu::Reply;
use crate::serial_menu::RgbLed;
use crate::serial_menu::SerialMenu;

verus! {

/// What the console does with one received byte.
pub struct ConsoleOutput {
    /// Bytes to echo back, sent first.
    pub echo: Vec<u8>,
    /// The finished line, when the byte was a carriage return.
    pub line: Option<Vec<u8>>,
    /// The menu's answer to that line.
    pub reply: Option<Reply>,
    /// The line grew too long and was dropped: report an error.
    pub overflow: bool,
}

/// The serial console: the line being typed and the menu.
pub struct Console {
    pub editor: LineEditor,
    pub menu: SerialMenu,
}

impl Console {
    /// A console with an empty line, in the main menu, all LEDs at zero.
    pub fn new() -> (c: Console)
        ensures
            c.editor@ == Seq::<u8>::empty(),
            c.menu.state == MenuState::Main,
            c.menu.leds == (RgbLed { red_brightness: 0, green_brightness: 0, blue_brightness: 0 }),
    {
        Console { editor: LineEditor::new(), menu: SerialMenu::new() }
    }

    /// Handle one received byte; `max_duty` is the maximum duty of the LED
    /// PWM channels. The byte is fed to the line editor; a finished line is
    /// handed to the menu, and both the line and the menu's reply come back;
    /// otherwise the menu is untouched.
    pub fn on_byte(&mut self, byte: u8, max_duty: u16) -> (out: ConsoleOutput)
        ensures
            final(self).editor@.len() < LINE_LIMIT,
            ({
                let (buf, echo, line, overflow) = spec_feed(old(self).editor@, byte);
                &&& final(self).editor@ == buf
                &&& out.echo@ == echo
                &&& out.overflow == overflow
                &&& line_view(out.line) == line
                &&& match line {
                    Some(l) => {
                        let (state, leds, reply) = spec_handle_input(
                            old(self).menu.state,
                            old(self).menu.leds,
                            l,
                            max_duty,
                        );
                        &&& final(self).menu.state == state
                        &&& final(self).menu.leds == leds
                        &&& out.reply == Some(reply)
                    },
                    None => {
                        &&& final(self).menu == old(self).menu
                        &&& out.reply is None
                    },
                }
            }),
    {
        let feed = self.editor.feed(byte);
        let reply = match &feed.line {
            Some(line) => Some(self.menu.handle_input(line.as_slice(), max_duty)),
            None => None,
        };
        ConsoleOutput { echo: feed.echo, line: feed.line, reply, overflow: feed.overflow }
    }
}

} // verus!
