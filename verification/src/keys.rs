//! Key codes and what they mean to the puzzle.

use vstd::prelude::*;
use crate::text::{alphabetic, is_alphabetic};

verus! {

/// The codes that the terminal gives for the keys that are no characters.
#[derive(Clone, Copy, Debug, PartialEq, Eq)]
pub struct KeyCodes {
    pub f1: i32,
    pub f10: i32,
    pub enter: i32,
    pub backspace: i32,
    pub left: i32,
    pub right: i32,
    pub up: i32,
    pub down: i32,
}

/// A key as the puzzle understands it.
#[derive(Clone, Copy, Debug, PartialEq, Eq)]
pub enum Key {
    Exit,
    Help,
    Enter,
    Backspace,
    Letter(char),
    Left,
    Right,
    Up,
    Down,
    Other,
}

/// The character of a key code: the code's own below 256, else a digit,
/// which is no letter.
pub open spec fn key_char(ch: int) -> char {
    if 0 <= ch < 256 {
        (ch as u8) as char
    } else {
        '0'
    }
}

/// What the code `ch` means, given whether its character is a letter: the
/// exit key, the help key, Enter (by its code or as a line feed), Backspace,
/// a letter, an arrow, or nothing, the earlier of these winning where codes
/// coincide.
pub open spec fn meaning(ch: int, codes: KeyCodes, letter: bool) -> Key {
    if ch == codes.f10 {
        Key::Exit
    } else if ch == codes.f1 {
        Key::Help
    } else if ch == codes.enter || key_char(ch) == '\n' {
        Key::Enter
    } else if ch == codes.backspace {
        Key::Backspace
    } else if letter {
        Key::Letter(key_char(ch))
    } else if ch == codes.left {
        Key::Left
    } else if ch == codes.right {
        Key::Right
    } else if ch == codes.up {
        Key::Up
    } else if ch == codes.down {
        Key::Down
    } else {
        Key::Other
    }
}

/// What the code `ch` means: its character counts as a letter if it is
/// alphabetic.
pub open spec fn decoded(ch: int, codes: KeyCodes) -> Key {
    meaning(ch, codes, alphabetic(key_char(ch)))
}

/// The character of a key code.
pub fn char_of_key(ch: i32) -> (c: char)
    ensures
        c == key_char(ch as int),
{
    if 0 <= ch && ch < 256 {
        (ch as u8) as char
    } else {
        '0'
    }
}

/// What the code `ch` means, given whether its character is a letter.
pub fn key_of(ch: i32, codes: &KeyCodes, letter: bool) -> (k: Key)
    ensures
        k == meaning(ch as int, *codes, letter),
{
    let c: char = char_of_key(ch);
    if ch == codes.f10 {
        Key::Exit
    } else if ch == codes.f1 {
        Key::Help
    } else if ch == codes.enter || c == '\n' {
        Key::Enter
    } else if ch == codes.backspace {
        Key::Backspace
    } else if letter {
        Key::Letter(c)
    } else if ch == codes.left {
        Key::Left
    } else if ch == codes.right {
        Key::Right
    } else if ch == codes.up {
        Key::Up
    } else if ch == codes.down {
        Key::Down
    } else {
        Key::Other
    }
}

/// What the code `ch` means.
pub fn decode_key(ch: i32, codes: &KeyCodes) -> (k: Key)
    ensures
        k == decoded(ch as int, *codes),
{
    let letter: bool = is_alphabetic(char_of_key(ch));
    key_of(ch, codes, letter)
}

} // verus!
