use deruler::blink::Blinker;
use deruler::color::Color;
use deruler::color::PinLevels;
use deruler::display::pack_pixels;
use deruler::display::select_image;
use deruler::display::Image;
use deruler::loop_counter::next_loop_count;
use deruler::pwm_brightness::duty_for;
use deruler::pwm_brightness::PwmCommand;
use deruler::pwm_brightness::PwmLed;
use deruler::rgb_cycle::index_levels;
use deruler::rgb_cycle::next_color_index;
use deruler::rgb_cycle::RgbLed;

const RED: PinLevels = PinLevels { red: true, green: false, blue: false };
const GREEN: PinLevels = PinLevels { red: false, green: true, blue: false };
const BLUE: PinLevels = PinLevels { red: false, green: false, blue: true };

#[test]
fn colour_cycle_up_and_down() {
    let mut led = RgbLed::new();
    assert_eq!(led.update_output(), RED);
    assert_eq!(led.cycle_up(), GREEN);
    assert_eq!(led.cycle_up(), BLUE);
    assert_eq!(led.cycle_up(), RED);
    assert_eq!(led.cycle_down(), BLUE);
    assert_eq!(led.active_color, Color::Blue);
    assert_eq!(led.cycle_down(), GREEN);
    assert_eq!(led.cycle_up(), BLUE);
}

#[test]
fn colour_next_prev_inverse() {
    for c in [Color::Red, Color::Green, Color::Blue] {
        assert_eq!(c.next().prev(), c);
        assert_eq!(c.prev().next(), c);
        assert_eq!(c.next().next().next(), c);
        let l = c.levels();
        assert_eq!([l.red, l.green, l.blue].iter().filter(|x| **x).count(), 1);
    }
}

#[test]
fn polled_colour_wraps() {
    assert_eq!(next_color_index(0, true, false), 1);
    assert_eq!(next_color_index(2, true, false), 0);
    assert_eq!(next_color_index(0, false, true), 2);
    assert_eq!(next_color_index(1, false, true), 0);
    assert_eq!(next_color_index(1, true, true), 2);
    assert_eq!(next_color_index(2, false, false), 2);
    assert_eq!(index_levels(0), RED);
    assert_eq!(index_levels(1), GREEN);
    assert_eq!(index_levels(2), BLUE);
}

#[test]
fn polled_and_interrupt_loops_agree() {
    let mut led = RgbLed::new();
    let mut index: i8 = 0;
    for (up, down) in [(true, false), (true, false), (false, true), (true, true), (false, false), (true, false)] {
        index = next_color_index(index, up, down);
        let levels = if up {
            led.cycle_up()
        } else if down {
            led.cycle_down()
        } else {
            led.update_output()
        };
        assert_eq!(index_levels(index), levels);
    }
}

#[test]
fn pwm_starts_at_twenty_percent() {
    let s = PwmLed::new();
    assert!(s.led_on);
    assert_eq!(s.led_brightness, 20);
    assert_eq!(s.duty(10000), 2000);
}

#[test]
fn pwm_buttons() {
    let mut s = PwmLed::new();
    assert_eq!(s.handle_buttons(true, false), PwmCommand { switch: None, report: Some(21) });
    assert_eq!(s.handle_buttons(false, true), PwmCommand { switch: None, report: Some(20) });
    assert_eq!(s.handle_buttons(true, true), PwmCommand { switch: Some(false), report: None });
    assert!(!s.led_on);
    assert_eq!(s.handle_buttons(true, true), PwmCommand { switch: Some(true), report: None });
    assert!(s.led_on);
    assert_eq!(s.handle_buttons(false, false), PwmCommand { switch: None, report: None });
    assert_eq!(s.led_brightness, 20);
}

#[test]
fn pwm_brightness_saturates() {
    let mut s = PwmLed { led_on: true, led_brightness: 100 };
    assert_eq!(s.handle_buttons(true, false), PwmCommand { switch: None, report: None });
    assert_eq!(s.led_brightness, 100);
    assert_eq!(s.duty(65535), 65500);
    let mut z = PwmLed { led_on: true, led_brightness: 0 };
    assert_eq!(z.handle_buttons(false, true), PwmCommand { switch: None, report: None });
    assert_eq!(z.led_brightness, 0);
}

#[test]
fn duty_formula() {
    assert_eq!(duty_for(1600, 42), 672);
    assert_eq!(duty_for(199, 50), 50);
    assert_eq!(duty_for(99, 100), 0);
    assert_eq!(duty_for(65535, 100), 65500);
}

#[test]
fn image_selection() {
    assert_eq!(select_image(true, false), Some(Image::Secondary));
    assert_eq!(select_image(true, true), Some(Image::Secondary));
    assert_eq!(select_image(false, true), Some(Image::Secondary));
    assert_eq!(select_image(false, false), None);
}

#[test]
fn pixels_pack_most_significant_first() {
    assert_eq!(pack_pixels(&[255, 0, 200, 127, 128, 0, 0, 1]), vec![0b1010_1000]);
    assert_eq!(pack_pixels(&[]), Vec::<u8>::new());
    assert_eq!(pack_pixels(&[200; 8]), vec![0xFF]);
    assert_eq!(pack_pixels(&[200, 200, 200, 0, 0, 0, 0, 0, 255, 0, 255]), vec![0b1110_0000, 0b1010_0000]);
}

#[test]
fn full_image_size() {
    let gray = vec![130u8; 64 * 64];
    let packed = pack_pixels(&gray);
    assert_eq!(packed.len(), 512);
    assert!(packed.iter().all(|b| *b == 0xFF));
}

#[test]
fn blink_alternates() {
    let mut b = Blinker::new();
    let start = b;
    assert_eq!(b.tick(), PinLevels { red: true, green: true, blue: true });
    assert_ne!(b, start);
    assert_eq!(b.tick(), PinLevels { red: false, green: false, blue: false });
    assert_eq!(b, start);
    assert_eq!(b.tick(), PinLevels { red: true, green: true, blue: true });
}

#[test]
fn loop_counter_wraps() {
    assert_eq!(next_loop_count(0), 1);
    assert_eq!(next_loop_count(41), 42);
    assert_eq!(next_loop_count(65535), 0);
}
