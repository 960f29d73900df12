//! The keyboard decoder: raw scancodes in, characters and modifier/lock
//! state changes out.
//!
//! A scancode's low seven bits index a fixed 89-entry key table; the high
//! bit distinguishes key release from key press. The table is an explicit
//! tagged enumeration: a key either emits a character code or names a
//! modifier or lock key. Modifier keys set their flag on press and clear it
//! on release; lock keys toggle their flag on press only. A character is
//! put through a shifted-symbol substitution when exactly one of CapsLock
//! and Shift is active.

use vstd::prelude::*;
use crate::bus::PortBus;
use crate::bus::PortOp;
use crate::port::Port;

verus! {

/// Flag bit of the Alt modifier.
pub const ALT: u8 = 0x01;

/// Flag bit of the Control modifier.
pub const CONTROL: u8 = 0x02;

/// Flag bit of the Shift modifier.
pub const SHIFT: u8 = 0x04;

/// Flag bit of the CapsLock lock key.
pub const CAPSLOCK: u8 = 0x08;

/// Flag bit of the NumLock lock key.
pub const NUMLOCK: u8 = 0x10;

/// Flag bit of the ScrollLock lock key.
pub const SCROLLLOCK: u8 = 0x20;

/// Highest scancode index the key table defines; larger indices are
/// undefined and must be ignored, never looked up.
pub const LAST_DEFINED_INDEX: u8 = 88;

/// Data port of the keyboard controller.
pub const KBD_DATA: u16 = 0x60;

/// Control port of the keyboard controller.
pub const KBD_CONTROL: u16 = 0x64;

/// What one key of the table does: emit a character code, act as a
/// modifier key, or act as a lock key.
#[derive(Clone, Copy, PartialEq, Eq, Structural, Debug)]
pub enum KeyAction {
    Emit(u8),
    Control,
    Shift,
    Alt,
    CapsLock,
    NumLock,
    ScrollLock,
}

/// A set of modifier and lock flags, one independent bit each.
#[derive(Clone, Copy, PartialEq, Eq, Structural, Debug)]
pub struct KeyFlags {
    pub bits: u8,
}

/// The US key table, indexed by a scancode's low seven bits. Indices with
/// no printable key and no tracked modifier emit the character code 0.
pub open spec fn key_action(index: u8) -> KeyAction {
    match index {
        1u8 => KeyAction::Emit(27),  // escape
        2u8 => KeyAction::Emit(49),  // '1'
        3u8 => KeyAction::Emit(50),  // '2'
        4u8 => KeyAction::Emit(51),  // '3'
        5u8 => KeyAction::Emit(52),  // '4'
        6u8 => KeyAction::Emit(53),  // '5'
        7u8 => KeyAction::Emit(54),  // '6'
        8u8 => KeyAction::Emit(55),  // '7'
        9u8 => KeyAction::Emit(56),  // '8'
        10u8 => KeyAction::Emit(57),  // '9'
        11u8 => KeyAction::Emit(48),  // '0'
        12u8 => KeyAction::Emit(45),  // '-'
        13u8 => KeyAction::Emit(61),  // '='
        14u8 => KeyAction::Emit(8),  // backspace
        15u8 => KeyAction::Emit(9),  // tab
        16u8 => KeyAction::Emit(113),  // 'q'
        17u8 => KeyAction::Emit(119),  // 'w'
        18u8 => KeyAction::Emit(101),  // 'e'
        19u8 => KeyAction::Emit(114),  // 'r'
        20u8 => KeyAction::Emit(116),  // 't'
        21u8 => KeyAction::Emit(121),  // 'y'
        22u8 => KeyAction::Emit(117),  // 'u'
        23u8 => KeyAction::Emit(105),  // 'i'
        24u8 => KeyAction::Emit(111),  // 'o'
        25u8 => KeyAction::Emit(112),  // 'p'
        26u8 => KeyAction::Emit(91),  // '['
        27u8 => KeyAction::Emit(93),  // ']'
        28u8 => KeyAction::Emit(10),  // enter
        29u8 => KeyAction::Control,  // Ctrl
        30u8 => KeyAction::Emit(97),  // 'a'
        31u8 => KeyAction::Emit(115),  // 's'
        32u8 => KeyAction::Emit(100),  // 'd'
        33u8 => KeyAction::Emit(102),  // 'f'
        34u8 => KeyAction::Emit(103),  // 'g'
        35u8 => KeyAction::Emit(104),  // 'h'
        36u8 => KeyAction::Emit(106),  // 'j'
        37u8 => KeyAction::Emit(107),  // 'k'
        38u8 => KeyAction::Emit(108),  // 'l'
        39u8 => KeyAction::Emit(59),  // ';'
        40u8 => KeyAction::Emit(39),  // quote
        41u8 => KeyAction::Emit(96),  // '`'
        42u8 => KeyAction::Shift,  // left Shift
        43u8 => KeyAction::Emit(92),  // backslash
        44u8 => KeyAction::Emit(122),  // 'z'
        45u8 => KeyAction::Emit(120),  // 'x'
        46u8 => KeyAction::Emit(99),  // 'c'
        47u8 => KeyAction::Emit(118),  // 'v'
        48u8 => KeyAction::Emit(98),  // 'b'
        49u8 => KeyAction::Emit(110),  // 'n'
        50u8 => KeyAction::Emit(109),  // 'm'
        51u8 => KeyAction::Emit(44),  // ','
        52u8 => KeyAction::Emit(46),  // '.'
        53u8 => KeyAction::Emit(47),  // '/'
        54u8 => KeyAction::Shift,  // right Shift
        55u8 => KeyAction::Emit(42),  // '*'
        56u8 => KeyAction::Alt,  // Alt
        57u8 => KeyAction::Emit(32),  // space
        58u8 => KeyAction::CapsLock,  // CapsLock
        69u8 => KeyAction::NumLock,  // NumLock
        70u8 => KeyAction::ScrollLock,  // ScrollLock
        74u8 => KeyAction::Emit(45),  // keypad '-'
        78u8 => KeyAction::Emit(43),  // keypad '+'
        _ => KeyAction::Emit(0),  // undefined key
    }
}

/// Executable lookup into the key table.
pub fn lookup_key(index: u8) -> (action: KeyAction)
    ensures
        action == key_action(index),
{
    match index {
        1u8 => KeyAction::Emit(27),  // escape
        2u8 => KeyAction::Emit(49),  // '1'
        3u8 => KeyAction::Emit(50),  // '2'
        4u8 => KeyAction::Emit(51),  // '3'
        5u8 => KeyAction::Emit(52),  // '4'
        6u8 => KeyAction::Emit(53),  // '5'
        7u8 => KeyAction::Emit(54),  // '6'
        8u8 => KeyAction::Emit(55),  // '7'
        9u8 => KeyAction::Emit(56),  // '8'
        10u8 => KeyAction::Emit(57),  // '9'
        11u8 => KeyAction::Emit(48),  // '0'
        12u8 => KeyAction::Emit(45),  // '-'
        13u8 => KeyAction::Emit(61),  // '='
        14u8 => KeyAction::Emit(8),  // backspace
        15u8 => KeyAction::Emit(9),  // tab
        16u8 => KeyAction::Emit(113),  // 'q'
        17u8 => KeyAction::Emit(119),  // 'w'
        18u8 => KeyAction::Emit(101),  // 'e'
        19u8 => KeyAction::Emit(114),  // 'r'
        20u8 => KeyAction::Emit(116),  // 't'
        21u8 => KeyAction::Emit(121),  // 'y'
        22u8 => KeyAction::Emit(117),  // 'u'
        23u8 => KeyAction::Emit(105),  // 'i'
        24u8 => KeyAction::Emit(111),  // 'o'
        25u8 => KeyAction::Emit(112),  // 'p'
        26u8 => KeyAction::Emit(91),  // '['
        27u8 => KeyAction::Emit(93),  // ']'
        28u8 => KeyAction::Emit(10),  // enter
        29u8 => KeyAction::Control,  // Ctrl
        30u8 => KeyAction::Emit(97),  // 'a'
        31u8 => KeyAction::Emit(115),  // 's'
        32u8 => KeyAction::Emit(100),  // 'd'
        33u8 => KeyAction::Emit(102),  // 'f'
        34u8 => KeyAction::Emit(103),  // 'g'
        35u8 => KeyAction::Emit(104),  // 'h'
        36u8 => KeyAction::Emit(106),  // 'j'
        37u8 => KeyAction::Emit(107),  // 'k'
        38u8 => KeyAction::Emit(108),  // 'l'
        39u8 => KeyAction::Emit(59),  // ';'
        40u8 => KeyAction::Emit(39),  // quote
        41u8 => KeyAction::Emit(96),  // '`'
        42u8 => KeyAction::Shift,  // left Shift
        43u8 => KeyAction::Emit(92),  // backslash
        44u8 => KeyAction::Emit(122),  // 'z'
        45u8 => KeyAction::Emit(120),  // 'x'
        46u8 => KeyAction::Emit(99),  // 'c'
        47u8 => KeyAction::Emit(118),  // 'v'
        48u8 => KeyAction::Emit(98),  // 'b'
        49u8 => KeyAction::Emit(110),  // 'n'
        50u8 => KeyAction::Emit(109),  // 'm'
        51u8 => KeyAction::Emit(44),  // ','
        52u8 => KeyAction::Emit(46),  // '.'
        53u8 => KeyAction::Emit(47),  // '/'
        54u8 => KeyAction::Shift,  // right Shift
        55u8 => KeyAction::Emit(42),  // '*'
        56u8 => KeyAction::Alt,  // Alt
        57u8 => KeyAction::Emit(32),  // space
        58u8 => KeyAction::CapsLock,  // CapsLock
        69u8 => KeyAction::NumLock,  // NumLock
        70u8 => KeyAction::ScrollLock,  // ScrollLock
        74u8 => KeyAction::Emit(45),  // keypad '-'
        78u8 => KeyAction::Emit(43),  // keypad '+'
        _ => KeyAction::Emit(0),  // undefined key
    }
}

/// The shifted-symbol substitution: digits map to the punctuation row,
/// punctuation swaps with its shifted partner, backspace stays itself, and
/// every other code — lower-case letters in particular — drops by 32,
/// which takes letters to upper case.
pub open spec fn shifted(ch: u8) -> u8 {
    match ch {
        48u8 => 41,  // '0' -> ')'
        49u8 => 33,  // '1' -> '!'
        50u8 => 64,  // '2' -> '@'
        51u8 => 35,  // '3' -> '#'
        52u8 => 36,  // '4' -> '$'
        53u8 => 37,  // '5' -> '%'
        54u8 => 94,  // '6' -> '^'
        55u8 => 38,  // '7' -> '&'
        56u8 => 42,  // '8' -> '*'
        57u8 => 40,  // '9' -> '('
        45u8 => 95,  // '-' -> '_'
        61u8 => 43,  // '=' -> '+'
        91u8 => 123,  // '[' -> '{'
        93u8 => 125,  // ']' -> '}'
        92u8 => 124,  // '\' -> '|'
        44u8 => 60,  // ',' -> '<'
        46u8 => 62,  // '.' -> '>'
        47u8 => 63,  // '/' -> '?'
        96u8 => 126,  // '`' -> '~'
        59u8 => 58,  // ';' -> ':'
        39u8 => 34,  // ''' -> '"'
        8u8 => 8,  // backspace stays itself
        _ => ch.wrapping_sub(32),  // letters drop to upper case
    }
}

/// Executable shifted-symbol substitution.
pub fn shift_substitute(ch: u8) -> (r: u8)
    ensures
        r == shifted(ch),
{
    match ch {
        48u8 => 41,  // '0' -> ')'
        49u8 => 33,  // '1' -> '!'
        50u8 => 64,  // '2' -> '@'
        51u8 => 35,  // '3' -> '#'
        52u8 => 36,  // '4' -> '$'
        53u8 => 37,  // '5' -> '%'
        54u8 => 94,  // '6' -> '^'
        55u8 => 38,  // '7' -> '&'
        56u8 => 42,  // '8' -> '*'
        57u8 => 40,  // '9' -> '('
        45u8 => 95,  // '-' -> '_'
        61u8 => 43,  // '=' -> '+'
        91u8 => 123,  // '[' -> '{'
        93u8 => 125,  // ']' -> '}'
        92u8 => 124,  // '\' -> '|'
        44u8 => 60,  // ',' -> '<'
        46u8 => 62,  // '.' -> '>'
        47u8 => 63,  // '/' -> '?'
        96u8 => 126,  // '`' -> '~'
        59u8 => 58,  // ';' -> ':'
        39u8 => 34,  // ''' -> '"'
        8u8 => 8,  // backspace stays itself
        _ => ch.wrapping_sub(32),  // letters drop to upper case
    }
}

/// The character a pressed key emits under the current flags: the
/// substitution applies when exactly one of CapsLock and Shift is active,
/// and a computed backspace code is swallowed rather than emitted.
pub open spec fn emitted(flags: u8, ch: u8) -> Option<u8> {
    let substitute = ((flags & CAPSLOCK) != 0) != ((flags & SHIFT) != 0);
    let out = if substitute {
        shifted(ch)
    } else {
        ch
    };
    if out == 8 {
        None
    } else {
        Some(out)
    }
}

/// The keyboard state machine: from the current flag bits and one raw
/// scancode to the new flag bits and the character emitted, if any.
///
/// A scancode whose index lies beyond the table is ignored with no state
/// change. A release (high bit set) clears a modifier flag and does
/// nothing else; a press sets a modifier flag, toggles a lock flag, or
/// emits a character.
pub open spec fn decode(flags: u8, scancode: u8) -> (u8, Option<u8>) {
    let index = scancode & 0x7f;
    if index > LAST_DEFINED_INDEX {
        (flags, None)
    } else if scancode & 0x80 != 0 {
        match key_action(index) {
            KeyAction::Control => ((flags & !CONTROL) as u8, None),
            KeyAction::Shift => ((flags & !SHIFT) as u8, None),
            KeyAction::Alt => ((flags & !ALT) as u8, None),
            _ => (flags, None),
        }
    } else {
        match key_action(index) {
            KeyAction::Control => ((flags | CONTROL) as u8, None),
            KeyAction::Shift => ((flags | SHIFT) as u8, None),
            KeyAction::Alt => ((flags | ALT) as u8, None),
            KeyAction::CapsLock => ((flags ^ CAPSLOCK) as u8, None),
            KeyAction::NumLock => ((flags ^ NUMLOCK) as u8, None),
            KeyAction::ScrollLock => ((flags ^ SCROLLLOCK) as u8, None),
            KeyAction::Emit(ch) => (flags, emitted(flags, ch)),
        }
    }
}

/// Mathematical view of the keyboard: its two port addresses and its flag
/// bits.
pub struct KeyboardView {
    pub data_port: u16,
    pub control_port: u16,
    pub flags: u8,
}

/// The keyboard: its data and control ports and the modifier/lock state.
pub struct Keyboard {
    data: Port<u8>,
    control: Port<u8>,
    status: KeyFlags,
}

impl View for Keyboard {
    type V = KeyboardView;

    closed spec fn view(&self) -> KeyboardView {
        KeyboardView {
            data_port: self.data.port,
            control_port: self.control.port,
            flags: self.status.bits,
        }
    }
}

impl Keyboard {
    /// The keyboard sits at its fixed ports.
    pub open spec fn wf(self) -> bool {
        self@.data_port == KBD_DATA && self@.control_port == KBD_CONTROL
    }

    /// A keyboard at the fixed ports with every flag clear.
    pub fn new() -> (r: Keyboard)
        ensures
            r.wf(),
            r@.flags == 0u8,
    {
        Keyboard {
            data: Port::<u8>::new(KBD_DATA),
            control: Port::<u8>::new(KBD_CONTROL),
            status: KeyFlags { bits: 0 },
        }
    }

    /// Set the flags in `key_mask` (modifier key went down).
    pub fn press(&mut self, key_mask: KeyFlags)
        ensures
            final(self)@.flags == old(self)@.flags | key_mask.bits,
            final(self)@.data_port == old(self)@.data_port,
            final(self)@.control_port == old(self)@.control_port,
    {
        self.status.bits = self.status.bits | key_mask.bits;
    }

    /// Clear the flags in `key_mask` (modifier key came up).
    pub fn release(&mut self, key_mask: KeyFlags)
        ensures
            final(self)@.flags == old(self)@.flags & !key_mask.bits,
            final(self)@.data_port == old(self)@.data_port,
            final(self)@.control_port == old(self)@.control_port,
    {
        self.status.bits = self.status.bits & !key_mask.bits;
    }

    /// Flip the flags in `key_mask` (lock key went down).
    pub fn toggle(&mut self, key_mask: KeyFlags)
        ensures
            final(self)@.flags == old(self)@.flags ^ key_mask.bits,
            final(self)@.data_port == old(self)@.data_port,
            final(self)@.control_port == old(self)@.control_port,
    {
        self.status.bits = self.status.bits ^ key_mask.bits;
    }

    /// True iff every flag in `key_mask` is set.
    pub fn is_set(&self, key_mask: KeyFlags) -> (r: bool)
        ensures
            r == ((self@.flags & key_mask.bits) == key_mask.bits),
    {
        (self.status.bits & key_mask.bits) == key_mask.bits
    }

    /// Read one raw scancode byte from the keyboard's data port.
    pub fn read_key(&self, bus: &mut PortBus) -> (scancode: u8)
        requires
            self.wf(),
            old(bus).wf(),
        ensures
            final(bus).wf(),
            scancode == old(bus)@.latch[KBD_DATA as int] as u8,
            final(bus)@.latch == old(bus)@.latch,
            final(bus)@.log == old(bus)@.log.push(PortOp::Read {
                port: KBD_DATA,
                value: old(bus)@.latch[KBD_DATA as int],
            }),
    {
        self.data.read(bus)
    }

    /// Feed one scancode through the decoder: update the modifier and lock
    /// flags and return the character to emit, if any, exactly as `decode`
    /// says.
    pub fn apply_scancode(&mut self, scancode: u8) -> (out: Option<u8>)
        ensures
            (final(self)@.flags, out) == decode(old(self)@.flags, scancode),
            final(self)@.data_port == old(self)@.data_port,
            final(self)@.control_port == old(self)@.control_port,
    {
        let index = scancode & 0x7f;
        if index > LAST_DEFINED_INDEX {
            // Undefined key: ignore silently.
            return None;
        }
        let action = lookup_key(index);
        if scancode & 0x80 != 0 {
            // The key was released: only modifier keys react.
            match action {
                KeyAction::Control => self.release(KeyFlags { bits: CONTROL }),
                KeyAction::Shift => self.release(KeyFlags { bits: SHIFT }),
                KeyAction::Alt => self.release(KeyFlags { bits: ALT }),
                _ => {},
            }
            None
        } else {
            match action {
                KeyAction::Control => {
                    self.press(KeyFlags { bits: CONTROL });
                    None
                },
                KeyAction::Shift => {
                    self.press(KeyFlags { bits: SHIFT });
                    None
                },
                KeyAction::Alt => {
                    self.press(KeyFlags { bits: ALT });
                    None
                },
                KeyAction::CapsLock => {
                    self.toggle(KeyFlags { bits: CAPSLOCK });
                    None
                },
                KeyAction::NumLock => {
                    self.toggle(KeyFlags { bits: NUMLOCK });
                    None
                },
                KeyAction::ScrollLock => {
                    self.toggle(KeyFlags { bits: SCROLLLOCK });
                    None
                },
                KeyAction::Emit(ch) => {
                    proof {
                        let f = self@.flags;
                        assert(((f & CAPSLOCK) == CAPSLOCK) == ((f & CAPSLOCK) != 0))
                            by (bit_vector);
                        assert(((f & SHIFT) == SHIFT) == ((f & SHIFT) != 0)) by (bit_vector);
                    }
                    let caps = self.is_set(KeyFlags { bits: CAPSLOCK });
                    let shift = self.is_set(KeyFlags { bits: SHIFT });
                    let out = if caps != shift {
                        shift_substitute(ch)
                    } else {
                        ch
                    };
                    if out == 8 {
                        None
                    } else {
                        Some(out)
                    }
                },
            }
        }
    }
}

} // verus!
