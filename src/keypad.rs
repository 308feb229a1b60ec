//! The sixteen-key hexadecimal keypad and its fixed table of host keys.
use vstd::prelude::*;

verus! {

/// The host keys that stand for the keypad, in the usual QWERTY layout:
///
/// ```text
///   1 2 3 C        1 2 3 4
///   4 5 6 D   <=>  Q W E R
///   7 8 9 E        A S D F
///   A 0 B F        Z X C V
/// ```
///
/// `Unknown` is any other host key.
#[derive(Clone, Copy, Debug, PartialEq, Eq, Structural)]
pub enum Key {
    Key1,
    Key2,
    Key3,
    Key4,
    Q,
    W,
    E,
    R,
    A,
    S,
    D,
    F,
    Z,
    X,
    C,
    V,
    Unknown,
}

/// The host key of a keypad value; `Key::Unknown` for a value above 0xF.
pub open spec fn host_key(value: u8) -> Key {
    match value {
        0x1 => Key::Key1,
        0x2 => Key::Key2,
        0x3 => Key::Key3,
        0xC => Key::Key4,
        0x4 => Key::Q,
        0x5 => Key::W,
        0x6 => Key::E,
        0xD => Key::R,
        0x7 => Key::A,
        0x8 => Key::S,
        0x9 => Key::D,
        0xE => Key::F,
        0xA => Key::Z,
        0x0 => Key::X,
        0xB => Key::C,
        0xF => Key::V,
        _ => Key::Unknown,
    }
}

/// The keypad value of a host key; `None` for a key outside the table.
pub open spec fn keypad_value(key: Key) -> Option<u8> {
    match key {
        Key::Key1 => Some(0x1),
        Key::Key2 => Some(0x2),
        Key::Key3 => Some(0x3),
        Key::Key4 => Some(0xC),
        Key::Q => Some(0x4),
        Key::W => Some(0x5),
        Key::E => Some(0x6),
        Key::R => Some(0xD),
        Key::A => Some(0x7),
        Key::S => Some(0x8),
        Key::D => Some(0x9),
        Key::F => Some(0xE),
        Key::Z => Some(0xA),
        Key::X => Some(0x0),
        Key::C => Some(0xB),
        Key::V => Some(0xF),
        Key::Unknown => None,
    }
}

/// Maps a keypad value to the host key that stands for it.
pub fn keypad_to_keyboard(value: u8) -> (key: Key)
    ensures
        key == host_key(value),
        value < 16 <==> key != Key::Unknown,
{
    match value {
        0x1 => Key::Key1,
        0x2 => Key::Key2,
        0x3 => Key::Key3,
        0xC => Key::Key4,
        0x4 => Key::Q,
        0x5 => Key::W,
        0x6 => Key::E,
        0xD => Key::R,
        0x7 => Key::A,
        0x8 => Key::S,
        0x9 => Key::D,
        0xE => Key::F,
        0xA => Key::Z,
        0x0 => Key::X,
        0xB => Key::C,
        0xF => Key::V,
        _ => Key::Unknown,
    }
}

/// Maps a host key to its keypad value, or `None` for a key outside the table.
pub fn keyboard_to_keypad(key: Key) -> (value: Option<u8>)
    ensures
        value == keypad_value(key),
        value matches Some(v) ==> v < 16,
        value is None <==> key == Key::Unknown,
{
    match key {
        Key::Key1 => Some(0x1),
        Key::Key2 => Some(0x2),
        Key::Key3 => Some(0x3),
        Key::Key4 => Some(0xC),
        Key::Q => Some(0x4),
        Key::W => Some(0x5),
        Key::E => Some(0x6),
        Key::R => Some(0xD),
        Key::A => Some(0x7),
        Key::S => Some(0x8),
        Key::D => Some(0x9),
        Key::F => Some(0xE),
        Key::Z => Some(0xA),
        Key::X => Some(0x0),
        Key::C => Some(0xB),
        Key::V => Some(0xF),
        Key::Unknown => None,
    }
}

/// The table is a bijection between the keypad values 0x0..=0xF and the
/// sixteen host keys: each value comes back from its key, and each key
/// other than `Unknown` comes back from its value.
pub proof fn lemma_keypad_table_round_trip(value: u8, key: Key)
    ensures
        value < 16 ==> keypad_value(host_key(value)) == Some(value),
        key != Key::Unknown ==> (keypad_value(key) matches Some(v) && host_key(v) == key),
{
}

} // verus!
