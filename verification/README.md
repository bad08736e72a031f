# deruler

Firmware examples for the DERULER board (STM32L0, an RGB LED, two buttons, a
serial port and an optional SSD1306 OLED), split in two:

- `src/` — the verified library (Verus): every decision the examples take.
  - `color`: the three colours, the cycle through them, the pin levels that show one.
  - `rgb_cycle`: stepping the colour with polled buttons or with button interrupts.
  - `pwm_brightness`: on/off and percent brightness of a PWM-dimmed LED; duty cycles.
  - `decimal`: decimal `u16` numbers typed on the console.
  - `line_editor`: echo, backspace and line collection on the serial console.
  - `serial_menu`: the console menu that sets each LED's brightness.
  - `console`: line editor and menu together, one received byte at a time.
  - `display`: which image the OLED shows, and packing grey levels into its 1-bit format.
  - `blink`, `loop_counter`: the blinking and counting loops.
- `app/` — the firmware around it: peripherals, pins, PWM, UART, RTT, display.
  `EXAMPLE` in `app/main.rs` selects the example to run.
- `tests/` — tests of the library on concrete values.
