//! The keypad: sixteen keys, named by the hexadecimal digits.

use vstd::prelude::*;

verus! {

/// What the keypad reports while no hexadecimal key is held.
pub const NO_KEY: u8 = 0xFF;

/// The hexadecimal digit that a host key code stands for: the digit keys
/// `0` to `9` and the letter keys `A` to `F` each name their own digit, and
/// every other code is `NO_KEY`.
pub open spec fn hexkey_of(code: u16) -> u8 {
    if 0x30 <= code <= 0x39 {
        (code - 0x30) as u8
    } else if 0x41 <= code <= 0x46 {
        (code - 0x41 + 10) as u8
    } else {
        NO_KEY
    }
}

/// The code of the host key that stands for "nothing held".
///
/// Trusted: reads the discriminant of `macroquad::input::KeyCode::Z`, which
/// the enum declares as `0x005a`. The letter Z is no hexadecimal digit, so
/// a keypad resting on it reports `NO_KEY`.
#[verifier::external_body]
fn idle_key_code() -> (code: u16)
    ensures
        code == 0x5A,
{
    macroquad::input::KeyCode::Z as u16
}

/// The key that the host saw last, as the host's key code.
pub struct Keyboard {
    pub last_key_pressed: u16,
}

impl Keyboard {
    /// A keypad with no hexadecimal key held.
    pub fn new() -> (keyboard: Self)
        ensures
            keyboard.last_key_pressed == 0x5A,
            hexkey_of(keyboard.last_key_pressed) == NO_KEY,
    {
        Keyboard { last_key_pressed: idle_key_code() }
    }

    /// The hexadecimal digit of the held key, or `NO_KEY`.
    pub fn get_hexkey_pressed(&mut self) -> (key: u8)
        ensures
            key == hexkey_of(old(self).last_key_pressed),
            key < 16 || key == NO_KEY,
            *final(self) == *old(self),
    {
        let code: u16 = self.last_key_pressed;
        if code > 47 && code < 58 {
            (code - 48) as u8
        } else if code > 64 && code < 71 {
            (code - 55) as u8
        } else {
            NO_KEY
        }
    }
}

} // verus!
