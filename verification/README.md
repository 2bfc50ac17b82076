# bbtrackball

Firmware logic of a BlackBerry-trackball mouse, verified with Verus.

- `src/report.rs`: the 4-byte report of a 3-button mouse and its descriptor.
- `src/hid.rs`, `src/trackball.rs`: a HID device that hands out the last
  trackball report it was given.
- `src/interrupts.rs`: what the STM32F042 firmware does when a button or a
  trackball wheel raises an external interrupt.
- `src/scanner.rs`: packing of a button-matrix scan into bytes.
- `src/indicator.rs`: the LED test of the LPC845 board.
- `app/`: the firmware around the library: peripherals, USB, pins.
