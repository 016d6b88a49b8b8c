//! The input adapter: a snapshot of which of the sixteen keys are held down,
//! and the mapping from typed characters to keys.

use crate::machine::KEY_COUNT;
use vstd::prelude::*;

verus! {

/// The character `'0'`.
pub const DIGIT_0: u8 = 0x30;

/// The character `'9'`.
pub const DIGIT_9: u8 = 0x39;

/// The character `'A'`.
pub const UPPER_A: u8 = 0x41;

/// The character `'F'`.
pub const UPPER_F: u8 = 0x46;

/// The character `'a'`.
pub const LOWER_A: u8 = 0x61;

/// The character `'f'`.
pub const LOWER_F: u8 = 0x66;

/// The key that a typed character stands for: the value of the hexadecimal
/// digit that it writes, in either case, or none if it writes no such digit.
pub open spec fn spec_key_of_byte(byte: u8) -> Option<u8> {
    if DIGIT_0 <= byte <= DIGIT_9 {
        Some((byte - DIGIT_0) as u8)
    } else if LOWER_A <= byte <= LOWER_F {
        Some((10 + byte - LOWER_A) as u8)
    } else if UPPER_A <= byte <= UPPER_F {
        Some((10 + byte - UPPER_A) as u8)
    } else {
        None
    }
}

/// The key that a typed character stands for: `'0'` to `'9'` are keys 0 to 9,
/// `'a'` to `'f'` and `'A'` to `'F'` are keys 10 to 15. Any other character is
/// no key.
pub fn key_of_byte(byte: u8) -> (key: Option<u8>)
    ensures
        key == spec_key_of_byte(byte),
        key matches Some(k) ==> k < KEY_COUNT,
{
    if DIGIT_0 <= byte && byte <= DIGIT_9 {
        Some(byte - DIGIT_0)
    } else if LOWER_A <= byte && byte <= LOWER_F {
        Some(byte - LOWER_A + 10)
    } else if UPPER_A <= byte && byte <= UPPER_F {
        Some(byte - UPPER_A + 10)
    } else {
        None
    }
}

/// Which keys are held down.
pub struct Input {
    keypad: [bool; KEY_COUNT],
}

impl View for Input {
    type V = Seq<bool>;

    /// The sixteen key states, by key index.
    closed spec fn view(&self) -> Seq<bool> {
        self.keypad@
    }
}

impl Input {
    /// The view always has sixteen entries.
    pub proof fn lemma_view_len(&self)
        ensures
            self@.len() == KEY_COUNT,
    {
    }

    /// No key held down.
    pub fn new() -> (input: Input)
        ensures
            input@ == Seq::new(KEY_COUNT as nat, |k: int| false),
    {
        let input = Input { keypad: [false; KEY_COUNT] };
        input
    }

    /// Whether key `key` is held down. An index outside the keypad is never
    /// held down.
    pub fn is_key_pressed(&self, key: u8) -> (pressed: bool)
        ensures
            pressed == (key < KEY_COUNT && self@[key as int]),
    {
        if key < 16 {
            self.keypad[key as usize]
        } else {
            false
        }
    }

    /// Records that key `key` is held down or released. An index outside the
    /// keypad is ignored.
    pub fn set_key(&mut self, key: u8, pressed: bool)
        ensures
            final(self)@ == if key < KEY_COUNT {
                old(self)@.update(key as int, pressed)
            } else {
                old(self)@
            },
    {
        if key < 16 {
            self.keypad[key as usize] = pressed;
        }
    }

    /// Takes a typed character: if it stands for a key, that key is recorded
    /// as held down and returned; if not, nothing changes.
    pub fn press_typed(&mut self, byte: u8) -> (key: Option<u8>)
        ensures
            key == spec_key_of_byte(byte),
            final(self)@ == match key {
                Some(k) => old(self)@.update(k as int, true),
                None => old(self)@,
            },
    {
        let key = key_of_byte(byte);
        if let Some(k) = key {
            self.set_key(k, true);
        }
        key
    }

    /// The sixteen key states.
    pub fn get_keypad_state(&self) -> (state: &[bool; KEY_COUNT])
        ensures
            state@ == self@,
    {
        &self.keypad
    }
}

} // verus!
