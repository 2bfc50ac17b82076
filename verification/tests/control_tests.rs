use bbtrackball::indicator::{loop_writes, startup_writes, Led, LedLevels, LedWrite, PanelInputs};
use bbtrackball::interrupts::{exti2_3_steps, exti4_15_steps, PointerReport, Step, CLICK_PAUSE_CYCLES};
use bbtrackball::scanner::scan_to_bytes;

fn moved(x: i8, y: i8) -> Step {
    Step::Send(PointerReport { x, y, buttons: 0 })
}

#[test]
fn right_button_clicks_twice() {
    let press = Step::Send(PointerReport { x: 0, y: 0, buttons: 3 });
    assert_eq!(
        exti2_3_steps(0x8).as_slice(),
        &[Step::ClearPending(3), press, Step::Pause(CLICK_PAUSE_CYCLES), press]
    );
    assert_eq!(CLICK_PAUSE_CYCLES, 1_000_000);
}

#[test]
fn lines_2_3_ignore_other_bits() {
    assert!(exti2_3_steps(0).as_slice().is_empty());
    assert!(exti2_3_steps(0x4).as_slice().is_empty());
    assert!(exti2_3_steps(0xc).as_slice().is_empty());
}

#[test]
fn left_button_clicks_twice() {
    let press = Step::Send(PointerReport { x: 0, y: 0, buttons: 1 });
    assert_eq!(
        exti4_15_steps(0x8000).as_slice(),
        &[Step::ClearPending(15), press, Step::Pause(1_000_000), press]
    );
}

#[test]
fn trackball_wheels_move() {
    assert_eq!(exti4_15_steps(0x10).as_slice(), &[Step::ClearPending(4), moved(0, -5)]);
    assert_eq!(exti4_15_steps(0x20).as_slice(), &[Step::ClearPending(5), moved(5, 0)]);
    assert_eq!(exti4_15_steps(0x40).as_slice(), &[Step::ClearPending(6), moved(0, 5)]);
    assert_eq!(exti4_15_steps(0x80).as_slice(), &[Step::ClearPending(7), moved(-5, 0)]);
}

#[test]
fn lines_4_15_ignore_other_values() {
    assert!(exti4_15_steps(0).as_slice().is_empty());
    assert!(exti4_15_steps(0x30).as_slice().is_empty());
    assert!(exti4_15_steps(0x8).as_slice().is_empty());
    assert!(exti4_15_steps(0x100).as_slice().is_empty());
    assert!(exti4_15_steps(0x8010).as_slice().is_empty());
}

#[test]
fn handled_interrupts_clear_their_own_bit() {
    for pending in [0x8u32] {
        match exti2_3_steps(pending).as_slice()[0] {
            Step::ClearPending(line) => assert_eq!(1u32 << line, pending),
            _ => panic!("first step is not a clear"),
        }
    }
    for pending in [0x10u32, 0x20, 0x40, 0x80, 0x8000] {
        match exti4_15_steps(pending).as_slice()[0] {
            Step::ClearPending(line) => assert_eq!(1u32 << line, pending),
            _ => panic!("first step is not a clear"),
        }
    }
}

#[test]
fn scan_packs_bits_in_order() {
    let mut buffer = [0xffu8, 0xff];
    let readings = [true, false, true, false, false, false, false, false, false, true];
    scan_to_bytes(&mut buffer, &readings);
    assert_eq!(buffer, [0x05, 0x02]);
}

#[test]
fn scan_clears_unused_bytes() {
    let mut buffer = [0xaau8, 0x55, 0x12];
    scan_to_bytes(&mut buffer, &[true; 8]);
    assert_eq!(buffer, [0xff, 0x00, 0x00]);
}

#[test]
fn scan_fills_whole_buffer() {
    let mut buffer = [0u8; 2];
    let mut readings = [false; 16];
    readings[7] = true;
    readings[15] = true;
    scan_to_bytes(&mut buffer, &readings);
    assert_eq!(buffer, [0x80, 0x80]);
}

#[test]
fn scan_of_nothing_clears() {
    let mut buffer = [0x33u8];
    scan_to_bytes(&mut buffer, &[]);
    assert_eq!(buffer, [0]);
    let mut empty: [u8; 0] = [];
    scan_to_bytes(&mut empty, &[]);
}

fn apply(levels: LedLevels, writes: &[LedWrite]) -> LedLevels {
    let mut levels = levels;
    for w in writes {
        match w.led {
            Led::Red => levels.red = w.on,
            Led::Green => levels.green = w.on,
            Led::Blue => levels.blue = w.on,
        }
    }
    levels
}

#[test]
fn startup_turns_leds_off() {
    let all_on = LedLevels { red: true, green: true, blue: true };
    assert_eq!(
        apply(all_on, &startup_writes()),
        LedLevels { red: false, green: false, blue: false }
    );
    assert_eq!(startup_writes().len(), 3);
}

#[test]
fn loop_writes_in_order() {
    let inputs = PanelInputs { up: true, down: false, left: true, right: false, trackball_button: false, button: true };
    assert_eq!(
        loop_writes(inputs),
        [
            LedWrite { led: Led::Blue, on: true },
            LedWrite { led: Led::Green, on: false },
            LedWrite { led: Led::Red, on: true },
            LedWrite { led: Led::Red, on: false },
            LedWrite { led: Led::Red, on: false },
            LedWrite { led: Led::Blue, on: true },
        ]
    );
}

#[test]
fn pass_settles_on_last_writes() {
    let off = LedLevels { red: false, green: false, blue: false };
    let inputs = PanelInputs { up: true, down: true, left: true, right: true, trackball_button: false, button: false };
    assert_eq!(apply(off, &loop_writes(inputs)), LedLevels { red: false, green: true, blue: false });
    let inputs = PanelInputs { up: false, down: false, left: false, right: false, trackball_button: true, button: true };
    assert_eq!(apply(off, &loop_writes(inputs)), LedLevels { red: true, green: false, blue: true });
}

#[test]
fn scan_result_does_not_depend_on_old_buffer() {
    let readings = [false, true, true, false, true, false, false, true, true];
    let mut a = [0u8; 2];
    let mut b = [0xffu8; 2];
    scan_to_bytes(&mut a, &readings);
    scan_to_bytes(&mut b, &readings);
    assert_eq!(a, b);
    assert_eq!(a, [0x96, 0x01]);
}
