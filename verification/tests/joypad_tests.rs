use rfc::joypad::{Button, Joypad};

#[test]
fn test_strobe_reset() {
    let mut pad = Joypad::new();
    pad.set_button(Button::A, true);
    pad.set_button(Button::Start, true);
    pad.write(1); // Strobe on
    pad.write(0); // Strobe off
    assert_eq!(pad.read(), 1); // A
    assert_eq!(pad.read(), 0); // B
    assert_eq!(pad.read(), 0); // Select
    assert_eq!(pad.read(), 1); // Start
}

#[test]
fn test_strobe_holds_a() {
    let mut pad = Joypad::new();
    pad.set_button(Button::A, true);
    pad.write(1); // Strobe on — keeps returning A
    assert_eq!(pad.read(), 1);
    assert_eq!(pad.read(), 1);
    assert_eq!(pad.read(), 1);
}

#[test]
fn test_after_8_reads_returns_1() {
    let mut pad = Joypad::new();
    pad.write(1);
    pad.write(0);
    for _ in 0..8 {
        pad.read();
    }
    assert_eq!(pad.read(), 1); // After all buttons, returns 1
}

#[test]
fn reads_report_buttons_in_order_then_ones() {
    let mut pad = Joypad::new();
    pad.set_button(Button::B, true);
    pad.set_button(Button::Up, true);
    pad.set_button(Button::Right, true);
    pad.write(1);
    pad.write(0);
    let got: Vec<u8> = (0..11).map(|_| pad.read()).collect();
    assert_eq!(got, vec![0, 1, 0, 0, 1, 0, 0, 1, 1, 1, 1]);
}

#[test]
fn release_clears_button() {
    let mut pad = Joypad::new();
    pad.set_button(Button::Select, true);
    pad.set_button(Button::Select, false);
    pad.write(1);
    pad.write(0);
    pad.read();
    pad.read();
    assert_eq!(pad.read(), 0);
}

#[test]
fn turbo_a_toggles_with_rate() {
    let mut pad = Joypad::new();
    pad.set_turbo_a(true);
    let mut seen = Vec::new();
    for _ in 0..5 {
        pad.update_turbo();
        pad.write(1);
        seen.push(pad.read());
    }
    // counter runs 1, 2, 3, 0, 1 with rate 2: on while counter < 2
    assert_eq!(seen, vec![1, 0, 0, 1, 1]);
    pad.set_turbo_a(false);
    pad.write(1);
    assert_eq!(pad.read(), 0);
}

#[test]
fn turbo_counter_never_overflows() {
    let mut pad = Joypad::new();
    pad.turbo_rate = 127;
    pad.set_turbo_b(true);
    for _ in 0..2000 {
        pad.update_turbo();
    }
    pad.turbo_rate = 1;
    for _ in 0..10 {
        pad.update_turbo();
    }
    pad.write(1);
    pad.write(0);
    pad.read();
    // rate 1: B is on when the counter is 0, which it is after these ten updates
    assert_eq!(pad.read(), 1);
}
