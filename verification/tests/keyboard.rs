use interrupts::bus::PortBus;
use interrupts::bus::PortOp;
use interrupts::kbd::KeyFlags;
use interrupts::kbd::Keyboard;
use interrupts::kbd::ALT;
use interrupts::kbd::CAPSLOCK;
use interrupts::kbd::CONTROL;
use interrupts::kbd::NUMLOCK;
use interrupts::kbd::SCROLLLOCK;
use interrupts::kbd::SHIFT;
use interrupts::pic::ChainedPics;
use interrupts::dispatch::keyboard_handler;

fn all_flags(kbd: &Keyboard) -> [bool; 6] {
    [
        kbd.is_set(KeyFlags { bits: ALT }),
        kbd.is_set(KeyFlags { bits: CONTROL }),
        kbd.is_set(KeyFlags { bits: SHIFT }),
        kbd.is_set(KeyFlags { bits: CAPSLOCK }),
        kbd.is_set(KeyFlags { bits: NUMLOCK }),
        kbd.is_set(KeyFlags { bits: SCROLLLOCK }),
    ]
}

#[test]
fn plain_a_key_yields_lower_case_a() {
    let mut kbd = Keyboard::new();
    assert_eq!(kbd.apply_scancode(0x1e), Some(b'a'));
}

#[test]
fn a_key_with_shift_yields_upper_case_a() {
    let mut kbd = Keyboard::new();
    assert_eq!(kbd.apply_scancode(0x2a), None); // left Shift down
    assert!(kbd.is_set(KeyFlags { bits: SHIFT }));
    assert_eq!(kbd.apply_scancode(0x1e), Some(b'A'));
}

#[test]
fn releasing_a_character_key_emits_nothing() {
    // The break code 0x9e belongs to the 'a' key, not to a modifier: per
    // the decoder only modifier keys react to release, so the Shift flag
    // survives and no character comes out.
    let mut kbd = Keyboard::new();
    kbd.apply_scancode(0x2a);
    assert_eq!(kbd.apply_scancode(0x9e), None);
    assert!(kbd.is_set(KeyFlags { bits: SHIFT }));
}

#[test]
fn releasing_shift_clears_the_flag_and_emits_nothing() {
    let mut kbd = Keyboard::new();
    kbd.apply_scancode(0x2a);
    assert!(kbd.is_set(KeyFlags { bits: SHIFT }));
    assert_eq!(kbd.apply_scancode(0xaa), None); // left Shift up
    assert!(!kbd.is_set(KeyFlags { bits: SHIFT }));
    assert_eq!(kbd.apply_scancode(0x1e), Some(b'a'));
}

#[test]
fn out_of_table_scancode_is_ignored_silently() {
    let mut kbd = Keyboard::new();
    kbd.apply_scancode(0x2a);
    let before = all_flags(&kbd);
    assert_eq!(kbd.apply_scancode(0x59), None); // 0x59 & 0x7f == 89 > 88
    assert_eq!(all_flags(&kbd), before);
}

#[test]
fn capslock_alone_uppercases_letters() {
    let mut kbd = Keyboard::new();
    assert_eq!(kbd.apply_scancode(0x3a), None); // CapsLock down
    assert!(kbd.is_set(KeyFlags { bits: CAPSLOCK }));
    assert_eq!(kbd.apply_scancode(0x1e), Some(b'A'));
    // CapsLock does not react to its own release.
    assert_eq!(kbd.apply_scancode(0xba), None);
    assert!(kbd.is_set(KeyFlags { bits: CAPSLOCK }));
    // A second press toggles it back off.
    assert_eq!(kbd.apply_scancode(0x3a), None);
    assert!(!kbd.is_set(KeyFlags { bits: CAPSLOCK }));
}

#[test]
fn capslock_and_shift_together_cancel_back_to_raw() {
    let mut kbd = Keyboard::new();
    kbd.apply_scancode(0x3a); // CapsLock on
    kbd.apply_scancode(0x2a); // Shift down
    assert_eq!(kbd.apply_scancode(0x1e), Some(b'a'));
}

#[test]
fn shift_applies_the_punctuation_substitutions() {
    let mut kbd = Keyboard::new();
    kbd.apply_scancode(0x2a); // Shift down
    assert_eq!(kbd.apply_scancode(0x02), Some(b'!')); // '1'
    assert_eq!(kbd.apply_scancode(0x0b), Some(b')')); // '0'
    assert_eq!(kbd.apply_scancode(0x0c), Some(b'_')); // '-'
    assert_eq!(kbd.apply_scancode(0x33), Some(b'<')); // ','
    assert_eq!(kbd.apply_scancode(0x28), Some(b'"')); // quote
}

#[test]
fn digits_stay_raw_without_shift() {
    let mut kbd = Keyboard::new();
    assert_eq!(kbd.apply_scancode(0x02), Some(b'1'));
    assert_eq!(kbd.apply_scancode(0x0b), Some(b'0'));
}

#[test]
fn control_and_alt_track_press_and_release() {
    let mut kbd = Keyboard::new();
    kbd.apply_scancode(0x1d); // Ctrl down
    assert!(kbd.is_set(KeyFlags { bits: CONTROL }));
    kbd.apply_scancode(0x38); // Alt down
    assert!(kbd.is_set(KeyFlags { bits: ALT }));
    kbd.apply_scancode(0x9d); // Ctrl up
    assert!(!kbd.is_set(KeyFlags { bits: CONTROL }));
    kbd.apply_scancode(0xb8); // Alt up
    assert!(!kbd.is_set(KeyFlags { bits: ALT }));
}

#[test]
fn numlock_and_scrolllock_toggle_on_press_only() {
    let mut kbd = Keyboard::new();
    kbd.apply_scancode(0x45); // NumLock
    kbd.apply_scancode(0x46); // ScrollLock
    assert!(kbd.is_set(KeyFlags { bits: NUMLOCK }));
    assert!(kbd.is_set(KeyFlags { bits: SCROLLLOCK }));
    kbd.apply_scancode(0xc5); // releases: no effect
    kbd.apply_scancode(0xc6);
    assert!(kbd.is_set(KeyFlags { bits: NUMLOCK }));
    assert!(kbd.is_set(KeyFlags { bits: SCROLLLOCK }));
}

#[test]
fn last_table_index_is_a_defined_key() {
    // Index 88 is the last defined entry; it carries no printable key, so
    // the table hands back the character code 0.
    let mut kbd = Keyboard::new();
    assert_eq!(kbd.apply_scancode(0x58), Some(0));
    // One past it is undefined and ignored.
    assert_eq!(kbd.apply_scancode(0x59), None);
}

#[test]
fn backspace_is_swallowed() {
    let mut kbd = Keyboard::new();
    assert_eq!(kbd.apply_scancode(0x0e), None);
    kbd.apply_scancode(0x2a); // Shift: substitution maps 8 to itself
    assert_eq!(kbd.apply_scancode(0x0e), None);
}

#[test]
fn press_release_toggle_and_is_set_work_on_the_flag_bits() {
    let mut kbd = Keyboard::new();
    kbd.press(KeyFlags { bits: SHIFT | CONTROL });
    assert!(kbd.is_set(KeyFlags { bits: SHIFT }));
    assert!(kbd.is_set(KeyFlags { bits: CONTROL }));
    assert!(kbd.is_set(KeyFlags { bits: SHIFT | CONTROL }));
    kbd.release(KeyFlags { bits: SHIFT });
    assert!(!kbd.is_set(KeyFlags { bits: SHIFT }));
    assert!(kbd.is_set(KeyFlags { bits: CONTROL }));
    kbd.toggle(KeyFlags { bits: CAPSLOCK });
    assert!(kbd.is_set(KeyFlags { bits: CAPSLOCK }));
    kbd.toggle(KeyFlags { bits: CAPSLOCK });
    assert!(!kbd.is_set(KeyFlags { bits: CAPSLOCK }));
}

#[test]
fn read_key_takes_the_data_port_byte() {
    let kbd = Keyboard::new();
    let mut bus = PortBus::new();
    bus.write(0x60, 0x1e);
    assert_eq!(kbd.read_key(&mut bus), 0x1e);
}

#[test]
fn keyboard_interrupt_reads_decodes_then_acknowledges() {
    let mut kbd = Keyboard::new();
    let mut bus = PortBus::new();
    let pics = ChainedPics::new(0x20, 0x28);
    bus.write(0x60, 0x1e); // the device latched the 'a' make code
    let out = keyboard_handler(&mut kbd, &pics, &mut bus);
    assert_eq!(out, Some(b'a'));
    assert_eq!(bus.log_len(), 3);
    assert_eq!(bus.log_at(1), PortOp::Read { port: 0x60, value: 0x1e });
    // End-of-interrupt comes only after the decode.
    assert_eq!(bus.log_at(2), PortOp::Write { port: 0x20, value: 0x20 });
}
