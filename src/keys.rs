//! Key codes and the mapping from a key to the character it types.
//!
//! Key codes are the Linux input event codes (`linux/input-event-codes.h`),
//! the values that an evdev device reports for key events.
use vstd::prelude::*;

verus! {

/// Event type of key events (`EV_KEY`).
pub const EV_KEY: u16 = 1;

pub const KEY_1: u16 = 2;
pub const KEY_2: u16 = 3;
pub const KEY_3: u16 = 4;
pub const KEY_4: u16 = 5;
pub const KEY_5: u16 = 6;
pub const KEY_6: u16 = 7;
pub const KEY_7: u16 = 8;
pub const KEY_8: u16 = 9;
pub const KEY_9: u16 = 10;
pub const KEY_0: u16 = 11;
pub const KEY_MINUS: u16 = 12;
pub const KEY_EQUAL: u16 = 13;
pub const KEY_TAB: u16 = 15;
pub const KEY_Q: u16 = 16;
pub const KEY_W: u16 = 17;
pub const KEY_E: u16 = 18;
pub const KEY_R: u16 = 19;
pub const KEY_T: u16 = 20;
pub const KEY_Y: u16 = 21;
pub const KEY_U: u16 = 22;
pub const KEY_I: u16 = 23;
pub const KEY_O: u16 = 24;
pub const KEY_P: u16 = 25;
pub const KEY_LEFTBRACE: u16 = 26;
pub const KEY_RIGHTBRACE: u16 = 27;
pub const KEY_ENTER: u16 = 28;
pub const KEY_A: u16 = 30;
pub const KEY_S: u16 = 31;
pub const KEY_D: u16 = 32;
pub const KEY_F: u16 = 33;
pub const KEY_G: u16 = 34;
pub const KEY_H: u16 = 35;
pub const KEY_J: u16 = 36;
pub const KEY_K: u16 = 37;
pub const KEY_L: u16 = 38;
pub const KEY_SEMICOLON: u16 = 39;
pub const KEY_APOSTROPHE: u16 = 40;
pub const KEY_GRAVE: u16 = 41;
pub const KEY_LEFTSHIFT: u16 = 42;
pub const KEY_BACKSLASH: u16 = 43;
pub const KEY_Z: u16 = 44;
pub const KEY_X: u16 = 45;
pub const KEY_C: u16 = 46;
pub const KEY_V: u16 = 47;
pub const KEY_B: u16 = 48;
pub const KEY_N: u16 = 49;
pub const KEY_M: u16 = 50;
pub const KEY_COMMA: u16 = 51;
pub const KEY_DOT: u16 = 52;
pub const KEY_SLASH: u16 = 53;
pub const KEY_RIGHTSHIFT: u16 = 54;
pub const KEY_SPACE: u16 = 57;
pub const KEY_CAPSLOCK: u16 = 58;
pub const KEY_KPENTER: u16 = 96;

/// The character that ends one barcode.
pub const TERMINATOR: char = '\n';

/// The (unshifted, shifted) characters of a key on a US keyboard, or `None`
/// for a key that types nothing (modifiers and every key not listed).
pub open spec fn key_pair(key: u16) -> Option<(char, char)> {
    match key {
        KEY_1 => Some(('1', '!')),
        KEY_2 => Some(('2', '@')),
        KEY_3 => Some(('3', '#')),
        KEY_4 => Some(('4', '$')),
        KEY_5 => Some(('5', '%')),
        KEY_6 => Some(('6', '^')),
        KEY_7 => Some(('7', '&')),
        KEY_8 => Some(('8', '*')),
        KEY_9 => Some(('9', '(')),
        KEY_0 => Some(('0', ')')),
        KEY_A => Some(('a', 'A')),
        KEY_B => Some(('b', 'B')),
        KEY_C => Some(('c', 'C')),
        KEY_D => Some(('d', 'D')),
        KEY_E => Some(('e', 'E')),
        KEY_F => Some(('f', 'F')),
        KEY_G => Some(('g', 'G')),
        KEY_H => Some(('h', 'H')),
        KEY_I => Some(('i', 'I')),
        KEY_J => Some(('j', 'J')),
        KEY_K => Some(('k', 'K')),
        KEY_L => Some(('l', 'L')),
        KEY_M => Some(('m', 'M')),
        KEY_N => Some(('n', 'N')),
        KEY_O => Some(('o', 'O')),
        KEY_P => Some(('p', 'P')),
        KEY_Q => Some(('q', 'Q')),
        KEY_R => Some(('r', 'R')),
        KEY_S => Some(('s', 'S')),
        KEY_T => Some(('t', 'T')),
        KEY_U => Some(('u', 'U')),
        KEY_V => Some(('v', 'V')),
        KEY_W => Some(('w', 'W')),
        KEY_X => Some(('x', 'X')),
        KEY_Y => Some(('y', 'Y')),
        KEY_Z => Some(('z', 'Z')),
        KEY_SPACE => Some((' ', ' ')),
        KEY_TAB => Some(('\t', '\t')),
        KEY_APOSTROPHE => Some(('\'', '"')),
        KEY_EQUAL => Some(('=', '+')),
        KEY_COMMA => Some((',', '<')),
        KEY_MINUS => Some(('-', '_')),
        KEY_DOT => Some(('.', '>')),
        KEY_SLASH => Some(('/', '?')),
        KEY_BACKSLASH => Some(('\\', '|')),
        KEY_SEMICOLON => Some((';', ':')),
        KEY_LEFTBRACE => Some(('[', '{')),
        KEY_RIGHTBRACE => Some((']', '}')),
        KEY_GRAVE => Some(('`', '~')),
        KEY_KPENTER => Some((TERMINATOR, TERMINATOR)),
        KEY_ENTER => Some((TERMINATOR, TERMINATOR)),
        _ => None,
    }
}

/// The character that a press of `key` types, given whether shift or caps
/// lock is in effect.
pub open spec fn key_char(key: u16, capital: bool) -> Option<char> {
    match key_pair(key) {
        Some((lower, upper)) => Some(if capital { upper } else { lower }),
        None => None,
    }
}

/// The digit keys in the order of the keyboard's top row, `1` to `9`, then `0`.
pub open spec fn digit_keys() -> Seq<u16> {
    seq![KEY_1, KEY_2, KEY_3, KEY_4, KEY_5, KEY_6, KEY_7, KEY_8, KEY_9, KEY_0]
}

/// What the digit keys type without shift.
pub open spec fn digit_row() -> Seq<char> {
    seq!['1', '2', '3', '4', '5', '6', '7', '8', '9', '0']
}

/// What the digit keys type with shift.
pub open spec fn shifted_digit_row() -> Seq<char> {
    seq!['!', '@', '#', '$', '%', '^', '&', '*', '(', ')']
}

/// The letter keys in alphabetical order.
pub open spec fn letter_keys() -> Seq<u16> {
    seq![
        KEY_A, KEY_B, KEY_C, KEY_D, KEY_E, KEY_F, KEY_G, KEY_H, KEY_I, KEY_J, KEY_K, KEY_L, KEY_M,
        KEY_N, KEY_O, KEY_P, KEY_Q, KEY_R, KEY_S, KEY_T, KEY_U, KEY_V, KEY_W, KEY_X, KEY_Y, KEY_Z,
    ]
}

/// The lowercase alphabet.
pub open spec fn lowercase_letters() -> Seq<char> {
    seq![
        'a', 'b', 'c', 'd', 'e', 'f', 'g', 'h', 'i', 'j', 'k', 'l', 'm',
        'n', 'o', 'p', 'q', 'r', 's', 't', 'u', 'v', 'w', 'x', 'y', 'z',
    ]
}

/// The uppercase alphabet.
pub open spec fn uppercase_letters() -> Seq<char> {
    seq![
        'A', 'B', 'C', 'D', 'E', 'F', 'G', 'H', 'I', 'J', 'K', 'L', 'M',
        'N', 'O', 'P', 'Q', 'R', 'S', 'T', 'U', 'V', 'W', 'X', 'Y', 'Z',
    ]
}

/// The `i`-th digit key types the `i`-th character of `1234567890` without
/// shift and the `i`-th character of `!@#$%^&*()` with it.
pub proof fn lemma_digit_key(i: int)
    requires
        0 <= i < 10,
    ensures
        key_char(digit_keys()[i], false) == Some(digit_row()[i]),
        key_char(digit_keys()[i], true) == Some(shifted_digit_row()[i]),
{
}

/// The `i`-th letter key types the `i`-th letter of the alphabet, lowercase
/// without shift and uppercase with it.
pub proof fn lemma_letter_key(i: int)
    requires
        0 <= i < 26,
    ensures
        key_char(letter_keys()[i], false) == Some(lowercase_letters()[i]),
        key_char(letter_keys()[i], true) == Some(uppercase_letters()[i]),
{
}

/// The key mapping depends on its two arguments alone: two mappings of the
/// same key under the same flag agree.
pub proof fn lemma_key_mapping_deterministic(key: u16, capital: bool, r1: Option<char>, r2: Option<char>)
    requires
        r1 == key_char(key, capital),
        r2 == key_char(key, capital),
    ensures
        r1 == r2,
{
}

/// Maps a key to the character it types; `capital` selects the shifted
/// character. Keys outside the table, modifiers included, give `None`.
pub fn key_to_str(key: u16, capital: bool) -> (r: Option<char>)
    ensures
        r == key_char(key, capital),
{
    let pair = match key {
        KEY_1 => ('1', '!'),
        KEY_2 => ('2', '@'),
        KEY_3 => ('3', '#'),
        KEY_4 => ('4', '$'),
        KEY_5 => ('5', '%'),
        KEY_6 => ('6', '^'),
        KEY_7 => ('7', '&'),
        KEY_8 => ('8', '*'),
        KEY_9 => ('9', '('),
        KEY_0 => ('0', ')'),
        KEY_A => ('a', 'A'),
        KEY_B => ('b', 'B'),
        KEY_C => ('c', 'C'),
        KEY_D => ('d', 'D'),
        KEY_E => ('e', 'E'),
        KEY_F => ('f', 'F'),
        KEY_G => ('g', 'G'),
        KEY_H => ('h', 'H'),
        KEY_I => ('i', 'I'),
        KEY_J => ('j', 'J'),
        KEY_K => ('k', 'K'),
        KEY_L => ('l', 'L'),
        KEY_M => ('m', 'M'),
        KEY_N => ('n', 'N'),
        KEY_O => ('o', 'O'),
        KEY_P => ('p', 'P'),
        KEY_Q => ('q', 'Q'),
        KEY_R => ('r', 'R'),
        KEY_S => ('s', 'S'),
        KEY_T => ('t', 'T'),
        KEY_U => ('u', 'U'),
        KEY_V => ('v', 'V'),
        KEY_W => ('w', 'W'),
        KEY_X => ('x', 'X'),
        KEY_Y => ('y', 'Y'),
        KEY_Z => ('z', 'Z'),
        KEY_SPACE => (' ', ' '),
        KEY_TAB => ('\t', '\t'),
        KEY_APOSTROPHE => ('\'', '"'),
        KEY_EQUAL => ('=', '+'),
        KEY_COMMA => (',', '<'),
        KEY_MINUS => ('-', '_'),
        KEY_DOT => ('.', '>'),
        KEY_SLASH => ('/', '?'),
        KEY_BACKSLASH => ('\\', '|'),
        KEY_SEMICOLON => (';', ':'),
        KEY_LEFTBRACE => ('[', '{'),
        KEY_RIGHTBRACE => (']', '}'),
        KEY_GRAVE => ('`', '~'),
        KEY_KPENTER => (TERMINATOR, TERMINATOR),
        KEY_ENTER => (TERMINATOR, TERMINATOR),
        _ => return None,
    };
    if capital {
        Some(pair.1)
    } else {
        Some(pair.0)
    }
}

} // verus!
