use deruler::color::Color;
use deruler::console::Console;
use deruler::decimal::parse_u16;
use deruler::line_editor::LineEditor;
use deruler::serial_menu::matches_word;
use deruler::serial_menu::MenuState;
use deruler::serial_menu::Reply;
use deruler::serial_menu::RgbLed;
use deruler::serial_menu::SerialMenu;

const MAX_DUTY: u16 = 1600;

#[test]
fn parse_plain_number() {
    assert_eq!(parse_u16(b"42"), Some(42));
    assert_eq!(parse_u16(b"0"), Some(0));
    assert_eq!(parse_u16(b"0007"), Some(7));
}

#[test]
fn parse_plus_sign_and_limits() {
    assert_eq!(parse_u16(b"+99"), Some(99));
    assert_eq!(parse_u16(b"65535"), Some(65535));
    assert_eq!(parse_u16(b"65536"), None);
    assert_eq!(parse_u16(b"123456"), None);
}

#[test]
fn parse_rejects_non_numbers() {
    assert_eq!(parse_u16(b""), None);
    assert_eq!(parse_u16(b"+"), None);
    assert_eq!(parse_u16(b"-1"), None);
    assert_eq!(parse_u16(b"-0"), None);
    assert_eq!(parse_u16(b"1 "), None);
    assert_eq!(parse_u16(b" 1"), None);
    assert_eq!(parse_u16(b"4a"), None);
    assert_eq!(parse_u16(b"++1"), None);
    assert_eq!(parse_u16(&[0xC3, 0xA9]), None);
}

#[test]
fn parse_agrees_with_std() {
    let samples: [&[u8]; 12] = [
        b"", b"+", b"-", b"0", b"+0", b"-0", b"65535", b"65536", b"00065535", b"12x", b"x12", b"99",
    ];
    for s in samples.iter() {
        let std_value = core::str::from_utf8(s).ok().and_then(|t| t.parse::<u16>().ok());
        assert_eq!(parse_u16(s), std_value);
    }
}

#[test]
fn keyword_matching_ignores_case() {
    assert!(matches_word(b"led", b"led"));
    assert!(matches_word(b"LED", b"led"));
    assert!(matches_word(b"lEd", b"led"));
    assert!(!matches_word(b"le", b"led"));
    assert!(!matches_word(b"leds", b"led"));
    assert!(!matches_word(b"lad", b"led"));
    assert!(!matches_word(b" led", b"led"));
}

#[test]
fn main_menu_led_opens_colour_question() {
    let mut menu = SerialMenu::new();
    assert_eq!(menu.handle_input(b"Led", MAX_DUTY), Reply::SelectColor);
    assert_eq!(menu.state, MenuState::LedColor);
}

#[test]
fn main_menu_help_shows_banner() {
    let mut menu = SerialMenu::new();
    assert_eq!(menu.handle_input(b"HELP", MAX_DUTY), Reply::Banner);
    assert_eq!(menu.state, MenuState::Main);
}

#[test]
fn main_menu_unknown_command() {
    let mut menu = SerialMenu::new();
    assert_eq!(menu.handle_input(b"red", MAX_DUTY), Reply::Unrecognised);
    assert_eq!(menu.state, MenuState::Main);
    assert_eq!(menu.handle_input(b"", MAX_DUTY), Reply::Unrecognised);
}

#[test]
fn colour_question_unknown_colour_returns_to_main() {
    let mut menu = SerialMenu::new();
    menu.handle_input(b"led", MAX_DUTY);
    assert_eq!(menu.handle_input(b"purple", MAX_DUTY), Reply::Unrecognised);
    assert_eq!(menu.state, MenuState::Main);
}

#[test]
fn full_dialogue_sets_red() {
    let mut menu = SerialMenu::new();
    assert_eq!(menu.handle_input(b"led", MAX_DUTY), Reply::SelectColor);
    assert_eq!(menu.handle_input(b"RED", MAX_DUTY), Reply::EnterBrightness(0));
    assert_eq!(menu.state, MenuState::LedBrightness(Color::Red));
    assert_eq!(
        menu.handle_input(b"42", MAX_DUTY),
        Reply::BrightnessSet { color: Color::Red, duty: 16 * 42 }
    );
    assert_eq!(menu.state, MenuState::Main);
    assert_eq!(menu.leds.get_red_led(), 42);
    assert_eq!(menu.leds.get_green_led(), 0);
    assert_eq!(menu.leds.get_blue_led(), 0);
}

#[test]
fn set_brightness_is_shown_again() {
    let mut menu = SerialMenu::new();
    menu.handle_input(b"led", MAX_DUTY);
    menu.handle_input(b"blue", MAX_DUTY);
    menu.handle_input(b"7", MAX_DUTY);
    menu.handle_input(b"led", MAX_DUTY);
    assert_eq!(menu.handle_input(b"Blue", MAX_DUTY), Reply::EnterBrightness(7));
    assert_eq!(menu.state, MenuState::LedBrightness(Color::Blue));
}

#[test]
fn refused_brightness_keeps_question() {
    let mut menu = SerialMenu::new();
    menu.handle_input(b"led", MAX_DUTY);
    menu.handle_input(b"green", MAX_DUTY);
    let before = menu.leds;
    assert_eq!(menu.handle_input(b"100", MAX_DUTY), Reply::InvalidBrightness);
    assert_eq!(menu.handle_input(b"abc", MAX_DUTY), Reply::InvalidBrightness);
    assert_eq!(menu.handle_input(b"-5", MAX_DUTY), Reply::InvalidBrightness);
    assert_eq!(menu.state, MenuState::LedBrightness(Color::Green));
    assert_eq!(menu.leds, before);
    assert_eq!(
        menu.handle_input(b"99", MAX_DUTY),
        Reply::BrightnessSet { color: Color::Green, duty: 16 * 99 }
    );
    assert_eq!(menu.leds.get_green_led(), 99);
}

#[test]
fn case_does_not_matter_for_whole_dialogue() {
    let mut a = SerialMenu::new();
    let mut b = SerialMenu::new();
    for (upper, lower) in [(&b"LED"[..], &b"led"[..]), (&b"GrEeN"[..], &b"green"[..]), (&b"+05"[..], &b"+05"[..])] {
        assert_eq!(a.handle_input(upper, MAX_DUTY), b.handle_input(lower, MAX_DUTY));
        assert_eq!(a, b);
    }
}

#[test]
fn rgb_led_setters_return_duty() {
    let mut leds = RgbLed::new();
    assert_eq!(leds.set_led(&Color::Green, 50, 1000), 500);
    assert_eq!(leds.set_red_led(3, 999), 27);
    assert_eq!(leds.set_blue_led(0, 65535), 0);
    assert_eq!(leds.get_green_led(), 50);
    assert_eq!(leds.get_red_led(), 3);
    assert_eq!(leds.get_blue_led(), 0);
}

#[test]
fn line_editor_collects_a_line() {
    let mut ed = LineEditor::new();
    for &b in b"led" {
        let f = ed.feed(b);
        assert_eq!(f.echo, vec![b]);
        assert!(f.line.is_none());
        assert!(!f.overflow);
    }
    assert_eq!(ed.len(), 3);
    let f = ed.feed(b'\r');
    assert_eq!(f.echo, b"\r\n".to_vec());
    assert_eq!(f.line, Some(b"led".to_vec()));
    assert_eq!(ed.len(), 0);
}

#[test]
fn line_editor_backspace_and_line_feed() {
    let mut ed = LineEditor::new();
    let f = ed.feed(127);
    assert!(f.echo.is_empty());
    ed.feed(b'a');
    ed.feed(b'b');
    let f = ed.feed(127);
    assert_eq!(f.echo, vec![127]);
    let f = ed.feed(b'\n');
    assert_eq!(f.echo, vec![b'\n']);
    assert!(f.line.is_none());
    let f = ed.feed(b'\r');
    assert_eq!(f.line, Some(b"a".to_vec()));
}

#[test]
fn line_editor_overflow_drops_line() {
    let mut ed = LineEditor::new();
    for _ in 0..125 {
        assert!(!ed.feed(b'x').overflow);
    }
    assert_eq!(ed.len(), 125);
    assert!(!ed.feed(b'x').overflow);
    assert_eq!(ed.len(), 126);
    let f = ed.feed(b'y');
    assert!(f.overflow);
    assert_eq!(f.echo, vec![b'y']);
    assert_eq!(ed.len(), 0);
    assert_eq!(ed.feed(b'\r').line, Some(Vec::new()));
}

#[test]
fn console_runs_a_dialogue_byte_by_byte() {
    let mut console = Console::new();
    let mut replies = Vec::new();
    let mut lines = Vec::new();
    for &b in b"led\rgreen\r12\r" {
        let out = console.on_byte(b, 1000);
        if let Some(r) = out.reply {
            replies.push(r);
        }
        if let Some(l) = out.line {
            lines.push(l);
        }
    }
    assert_eq!(lines, vec![b"led".to_vec(), b"green".to_vec(), b"12".to_vec()]);
    assert_eq!(
        replies,
        vec![
            Reply::SelectColor,
            Reply::EnterBrightness(0),
            Reply::BrightnessSet { color: Color::Green, duty: 120 },
        ]
    );
    assert_eq!(console.menu.leds.get_green_led(), 12);
    assert_eq!(console.menu.state, MenuState::Main);
}
