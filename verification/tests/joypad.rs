use formula::joypad::{
    Joypad, BUTTON_A, BUTTON_B, BUTTON_DOWN, BUTTON_LEFT, BUTTON_RIGHT, BUTTON_SELECT,
    BUTTON_START, BUTTON_UP,
};

#[test]
fn default_read_returns_no_buttons_pressed() {
    let joypad = Joypad::new();
    // Both lines deselected -> nibble reads 0x0F.
    assert_eq!(joypad.read(0xff00), 0xff);
}

#[test]
fn dpad_selection_shows_dpad_buttons() {
    let mut joypad = Joypad::new();
    joypad.write(0xff00, 0x20); // P14 = 0 (dpad), P15 = 1
    joypad.set_pressed(BUTTON_DOWN | BUTTON_RIGHT);
    // Bits: 7..6 = 1, 5..4 = select bits (0b10), 3..0 = ~(down|right)
    // Down is bit 3, Right is bit 0 -> low when pressed.
    let v = joypad.read(0xff00);
    assert_eq!(v & 0x08, 0, "down");
    assert_eq!(v & 0x04, 0x04, "up");
    assert_eq!(v & 0x02, 0x02, "left");
    assert_eq!(v & 0x01, 0, "right");
}

#[test]
fn action_selection_shows_action_buttons_only() {
    let mut joypad = Joypad::new();
    joypad.write(0xff00, 0x10); // P15 = 0, P14 = 1
    joypad.set_pressed(BUTTON_A | BUTTON_START | BUTTON_DOWN);
    let v = joypad.read(0xff00);
    // D-pad is unselected: pressing Down must NOT pull bit 3 low.
    // Start is bit 3 of the action row.
    assert_eq!(v & 0x01, 0, "A pressed");
    assert_eq!(v & 0x08, 0, "Start pressed");
    assert_eq!(v & 0x02, 0x02, "B not pressed");
}

#[test]
fn both_lines_selected_reads_union_of_pressed_buttons() {
    let mut joypad = Joypad::new();
    joypad.write(0xff00, 0x00); // both lines low
    joypad.set_pressed(BUTTON_A | BUTTON_DOWN);
    let v = joypad.read(0xff00);
    assert_eq!(v & 0x01, 0, "A pulls bit 0 low through the action row");
    assert_eq!(v & 0x08, 0, "Down pulls bit 3 low through the dpad row");
}

#[test]
fn write_only_touches_selection_bits() {
    let mut joypad = Joypad::new();
    joypad.write(0xff00, 0xff);
    // Only bits 5..4 stored; rest of the byte comes from the read-side
    // synthesis (0xC0 + selection + nibble).
    let v = joypad.read(0xff00);
    assert_eq!(v & 0x30, 0x30);
    assert_eq!(v & 0xc0, 0xc0); // hardwired high bits
}

#[test]
fn newly_pressed_button_raises_an_interrupt() {
    let mut joypad = Joypad::new();
    assert!(!joypad.take_interrupt());

    joypad.set_pressed(BUTTON_A);
    assert!(joypad.take_interrupt());
    assert!(!joypad.take_interrupt(), "one-shot");
}

#[test]
fn holding_a_button_does_not_refire_the_interrupt() {
    let mut joypad = Joypad::new();
    joypad.set_pressed(BUTTON_A);
    let _ = joypad.take_interrupt();

    // Same state again -> no transition -> no new interrupt.
    joypad.set_pressed(BUTTON_A);
    assert!(!joypad.take_interrupt());
}

#[test]
fn releasing_then_pressing_re_triggers_interrupt() {
    let mut joypad = Joypad::new();
    joypad.set_pressed(BUTTON_A);
    let _ = joypad.take_interrupt();

    joypad.set_pressed(0); // release
    assert!(!joypad.take_interrupt());

    joypad.set_pressed(BUTTON_A); // press again -> new transition
    assert!(joypad.take_interrupt());
}
