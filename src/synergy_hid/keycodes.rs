//! Synergy/Barrier key ids and mouse button ids, and their HID usages.
//!
//! Printable keys arrive as their character code; shifted characters use the
//! key that types them on a US layout, the shift itself arriving as its own
//! key event. Special keys live in the 0xEFxx page, multimedia keys in the
//! 0xE0xx page.
use vstd::prelude::*;

verus! {

/// HID usage of the `A` key.
pub const HID_KEY_A: u8 = 0x04;

/// HID usage of the `B` key.
pub const HID_KEY_B: u8 = 0x05;

/// What a Synergy key id becomes on the USB side.
#[derive(Debug, Clone, Copy, PartialEq, Eq, Structural)]
pub enum KeyCode {
    /// No HID usage.
    Unmapped,
    /// A usage of the keyboard page (modifiers are 0xE0..=0xE7).
    Key(u8),
    /// A usage of the consumer page.
    Consumer(u16),
}

/// The keyboard usage typing a printable character, 0 when there is none.
pub open spec fn char_usage(c: u16) -> u8 {
    if 0x61 <= c <= 0x7A {
        (0x04 + (c - 0x61)) as u8  // a..z
    } else if 0x41 <= c <= 0x5A {
        (0x04 + (c - 0x41)) as u8  // A..Z
    } else if 0x31 <= c <= 0x39 {
        (0x1E + (c - 0x31)) as u8  // 1..9
    } else {
        match c {
            0x30 => 0x27u8,  // 0
            0x20 => 0x2Cu8,  // space
            0x21 => 0x1Eu8,  // !
            0x22 => 0x34u8,  // "
            0x23 => 0x20u8,  // #
            0x24 => 0x21u8,  // $
            0x25 => 0x22u8,  // %
            0x26 => 0x24u8,  // &
            0x27 => 0x34u8,  // '
            0x28 => 0x26u8,  // (
            0x29 => 0x27u8,  // )
            0x2A => 0x25u8,  // *
            0x2B => 0x2Eu8,  // +
            0x2C => 0x36u8,  // ,
            0x2D => 0x2Du8,  // -
            0x2E => 0x37u8,  // .
            0x2F => 0x38u8,  // /
            0x3A => 0x33u8,  // :
            0x3B => 0x33u8,  // ;
            0x3C => 0x36u8,  // <
            0x3D => 0x2Eu8,  // =
            0x3E => 0x37u8,  // >
            0x3F => 0x38u8,  // ?
            0x40 => 0x1Fu8,  // @
            0x5B => 0x2Fu8,  // [
            0x5C => 0x31u8,  // backslash
            0x5D => 0x30u8,  // ]
            0x5E => 0x23u8,  // ^
            0x5F => 0x2Du8,  // _
            0x60 => 0x35u8,  // `
            0x7B => 0x2Fu8,  // {
            0x7C => 0x31u8,  // |
            0x7D => 0x30u8,  // }
            0x7E => 0x35u8,  // ~
            _ => 0u8,
        }
    }
}

/// The keyboard usage of a key of the 0xEFxx page, 0 when there is none.
pub open spec fn special_usage(k: u16) -> u8 {
    if 0xEFBE <= k <= 0xEFC9 {
        (0x3A + (k - 0xEFBE)) as u8  // F1..F12
    } else if 0xEFCA <= k <= 0xEFD5 {
        (0x68 + (k - 0xEFCA)) as u8  // F13..F24
    } else if 0xEFB1 <= k <= 0xEFB9 {
        (0x59 + (k - 0xEFB1)) as u8  // keypad 1..9
    } else {
        match k {
            0xEF08 => 0x2Au8,  // backspace
            0xEF09 => 0x2Bu8,  // tab
            0xEF0D => 0x28u8,  // return
            0xEF13 => 0x48u8,  // pause
            0xEF14 => 0x47u8,  // scroll lock
            0xEF15 => 0x9Au8,  // sys req
            0xEF1B => 0x29u8,  // escape
            0xEF50 => 0x4Au8,  // home
            0xEF51 => 0x50u8,  // left
            0xEF52 => 0x52u8,  // up
            0xEF53 => 0x4Fu8,  // right
            0xEF54 => 0x51u8,  // down
            0xEF55 => 0x4Bu8,  // page up
            0xEF56 => 0x4Eu8,  // page down
            0xEF57 => 0x4Du8,  // end
            0xEF60 => 0x77u8,  // select
            0xEF61 => 0x46u8,  // print screen
            0xEF62 => 0x74u8,  // execute
            0xEF63 => 0x49u8,  // insert
            0xEF65 => 0x7Au8,  // undo
            0xEF66 => 0x79u8,  // redo
            0xEF67 => 0x65u8,  // menu
            0xEF68 => 0x7Eu8,  // find
            0xEF69 => 0x9Bu8,  // cancel
            0xEF6A => 0x75u8,  // help
            0xEF6B => 0x48u8,  // break
            0xEF7E => 0xE6u8,  // AltGr
            0xEF7F => 0x53u8,  // num lock
            0xEF8D => 0x58u8,  // keypad enter
            0xEF95 => 0x5Fu8,  // keypad home
            0xEF96 => 0x5Cu8,  // keypad left
            0xEF97 => 0x60u8,  // keypad up
            0xEF98 => 0x5Eu8,  // keypad right
            0xEF99 => 0x5Au8,  // keypad down
            0xEF9A => 0x61u8,  // keypad page up
            0xEF9B => 0x5Bu8,  // keypad page down
            0xEF9C => 0x59u8,  // keypad end
            0xEF9D => 0x5Du8,  // keypad begin
            0xEF9E => 0x62u8,  // keypad insert
            0xEF9F => 0x63u8,  // keypad delete
            0xEFAA => 0x55u8,  // keypad *
            0xEFAB => 0x57u8,  // keypad +
            0xEFAD => 0x56u8,  // keypad -
            0xEFAE => 0x63u8,  // keypad .
            0xEFAF => 0x54u8,  // keypad /
            0xEFB0 => 0x62u8,  // keypad 0
            0xEFBD => 0x67u8,  // keypad =
            0xEFE1 => 0xE1u8,  // left shift
            0xEFE2 => 0xE5u8,  // right shift
            0xEFE3 => 0xE0u8,  // left control
            0xEFE4 => 0xE4u8,  // right control
            0xEFE5 => 0x39u8,  // caps lock
            0xEFE7 => 0xE3u8,  // left meta
            0xEFE8 => 0xE7u8,  // right meta
            0xEFE9 => 0xE2u8,  // left alt
            0xEFEA => 0xE6u8,  // right alt
            0xEFEB => 0xE3u8,  // left super
            0xEFEC => 0xE7u8,  // right super
            0xEFFF => 0x4Cu8,  // delete
            0xEE20 => 0x2Bu8,  // left tab
            _ => 0u8,
        }
    }
}

/// The consumer usage of a multimedia key, 0 when there is none.
pub open spec fn consumer_usage(k: u16) -> u16 {
    match k {
        0xE001 => 0x00B8u16,  // eject
        0xE05F => 0x0032u16,  // sleep
        0xE0A6 => 0x0224u16,  // browser back
        0xE0A7 => 0x0225u16,  // browser forward
        0xE0A8 => 0x0227u16,  // browser refresh
        0xE0A9 => 0x0226u16,  // browser stop
        0xE0AA => 0x0221u16,  // browser search
        0xE0AB => 0x022Au16,  // browser favorites
        0xE0AC => 0x0223u16,  // browser home
        0xE0AD => 0x00E2u16,  // mute
        0xE0AE => 0x00EAu16,  // volume down
        0xE0AF => 0x00E9u16,  // volume up
        0xE0B0 => 0x00B5u16,  // next track
        0xE0B1 => 0x00B6u16,  // previous track
        0xE0B2 => 0x00B7u16,  // stop
        0xE0B3 => 0x00CDu16,  // play/pause
        0xE0B4 => 0x018Au16,  // mail
        0xE0B5 => 0x0183u16,  // media player
        0xE0B6 => 0x0194u16,  // my computer
        0xE0B7 => 0x0192u16,  // calculator
        0xE0B8 => 0x0070u16,  // brightness down
        0xE0B9 => 0x006Fu16,  // brightness up
        _ => 0u16,
    }
}

/// The HID usage of a Synergy key id.
pub open spec fn hid_code(key: u16) -> KeyCode {
    if key < 0x80 {
        if char_usage(key) == 0 { KeyCode::Unmapped } else { KeyCode::Key(char_usage(key)) }
    } else if 0xEE00 <= key {
        if special_usage(key) == 0 { KeyCode::Unmapped } else { KeyCode::Key(special_usage(key)) }
    } else if 0xE000 <= key <= 0xE0FF {
        if consumer_usage(key) == 0 { KeyCode::Unmapped } else { KeyCode::Consumer(consumer_usage(key)) }
    } else {
        KeyCode::Unmapped
    }
}

fn char_to_hid(c: u16) -> (r: u8)
    requires
        c < 0x80,
    ensures
        r == char_usage(c),
{
    if 0x61 <= c && c <= 0x7A {
        (0x04 + (c - 0x61)) as u8
    } else if 0x41 <= c && c <= 0x5A {
        (0x04 + (c - 0x41)) as u8
    } else if 0x31 <= c && c <= 0x39 {
        (0x1E + (c - 0x31)) as u8
    } else {
        match c {
            0x30 => 0x27,
            0x20 => 0x2C,
            0x21 => 0x1E,
            0x22 => 0x34,
            0x23 => 0x20,
            0x24 => 0x21,
            0x25 => 0x22,
            0x26 => 0x24,
            0x27 => 0x34,
            0x28 => 0x26,
            0x29 => 0x27,
            0x2A => 0x25,
            0x2B => 0x2E,
            0x2C => 0x36,
            0x2D => 0x2D,
            0x2E => 0x37,
            0x2F => 0x38,
            0x3A => 0x33,
            0x3B => 0x33,
            0x3C => 0x36,
            0x3D => 0x2E,
            0x3E => 0x37,
            0x3F => 0x38,
            0x40 => 0x1F,
            0x5B => 0x2F,
            0x5C => 0x31,
            0x5D => 0x30,
            0x5E => 0x23,
            0x5F => 0x2D,
            0x60 => 0x35,
            0x7B => 0x2F,
            0x7C => 0x31,
            0x7D => 0x30,
            0x7E => 0x35,
            _ => 0,
        }
    }
}

fn special_to_hid(k: u16) -> (r: u8)
    ensures
        r == special_usage(k),
{
    if 0xEFBE <= k && k <= 0xEFC9 {
        (0x3A + (k - 0xEFBE)) as u8
    } else if 0xEFCA <= k && k <= 0xEFD5 {
        (0x68 + (k - 0xEFCA)) as u8
    } else if 0xEFB1 <= k && k <= 0xEFB9 {
        (0x59 + (k - 0xEFB1)) as u8
    } else {
        match k {
            0xEF08 => 0x2A,
            0xEF09 => 0x2B,
            0xEF0D => 0x28,
            0xEF13 => 0x48,
            0xEF14 => 0x47,
            0xEF15 => 0x9A,
            0xEF1B => 0x29,
            0xEF50 => 0x4A,
            0xEF51 => 0x50,
            0xEF52 => 0x52,
            0xEF53 => 0x4F,
            0xEF54 => 0x51,
            0xEF55 => 0x4B,
            0xEF56 => 0x4E,
            0xEF57 => 0x4D,
            0xEF60 => 0x77,
            0xEF61 => 0x46,
            0xEF62 => 0x74,
            0xEF63 => 0x49,
            0xEF65 => 0x7A,
            0xEF66 => 0x79,
            0xEF67 => 0x65,
            0xEF68 => 0x7E,
            0xEF69 => 0x9B,
            0xEF6A => 0x75,
            0xEF6B => 0x48,
            0xEF7E => 0xE6,
            0xEF7F => 0x53,
            0xEF8D => 0x58,
            0xEF95 => 0x5F,
            0xEF96 => 0x5C,
            0xEF97 => 0x60,
            0xEF98 => 0x5E,
            0xEF99 => 0x5A,
            0xEF9A => 0x61,
            0xEF9B => 0x5B,
            0xEF9C => 0x59,
            0xEF9D => 0x5D,
            0xEF9E => 0x62,
            0xEF9F => 0x63,
            0xEFAA => 0x55,
            0xEFAB => 0x57,
            0xEFAD => 0x56,
            0xEFAE => 0x63,
            0xEFAF => 0x54,
            0xEFB0 => 0x62,
            0xEFBD => 0x67,
            0xEFE1 => 0xE1,
            0xEFE2 => 0xE5,
            0xEFE3 => 0xE0,
            0xEFE4 => 0xE4,
            0xEFE5 => 0x39,
            0xEFE7 => 0xE3,
            0xEFE8 => 0xE7,
            0xEFE9 => 0xE2,
            0xEFEA => 0xE6,
            0xEFEB => 0xE3,
            0xEFEC => 0xE7,
            0xEFFF => 0x4C,
            0xEE20 => 0x2B,
            _ => 0,
        }
    }
}

fn consumer_to_hid(k: u16) -> (r: u16)
    ensures
        r == consumer_usage(k),
{
    match k {
        0xE001 => 0x00B8,
        0xE05F => 0x0032,
        0xE0A6 => 0x0224,
        0xE0A7 => 0x0225,
        0xE0A8 => 0x0227,
        0xE0A9 => 0x0226,
        0xE0AA => 0x0221,
        0xE0AB => 0x022A,
        0xE0AC => 0x0223,
        0xE0AD => 0x00E2,
        0xE0AE => 0x00EA,
        0xE0AF => 0x00E9,
        0xE0B0 => 0x00B5,
        0xE0B1 => 0x00B6,
        0xE0B2 => 0x00B7,
        0xE0B3 => 0x00CD,
        0xE0B4 => 0x018A,
        0xE0B5 => 0x0183,
        0xE0B6 => 0x0194,
        0xE0B7 => 0x0192,
        0xE0B8 => 0x0070,
        0xE0B9 => 0x006F,
        _ => 0,
    }
}

/// Translates a Synergy key id into a keyboard usage, a consumer usage, or
/// nothing.
pub fn synergy_to_hid(key: u16) -> (r: KeyCode)
    ensures
        r == hid_code(key),
{
    if key < 0x80 {
        let usage = char_to_hid(key);
        if usage == 0 { KeyCode::Unmapped } else { KeyCode::Key(usage) }
    } else if 0xEE00 <= key {
        let usage = special_to_hid(key);
        if usage == 0 { KeyCode::Unmapped } else { KeyCode::Key(usage) }
    } else if 0xE000 <= key && key <= 0xE0FF {
        let usage = consumer_to_hid(key);
        if usage == 0 { KeyCode::Unmapped } else { KeyCode::Consumer(usage) }
    } else {
        KeyCode::Unmapped
    }
}

/// The HID button bit of a Synergy mouse button: 1 is left, 2 middle, 3 right.
pub open spec fn mouse_button_bit(button: i8) -> u8 {
    match button {
        1 => 0x01u8,
        2 => 0x04u8,
        3 => 0x02u8,
        _ => 0u8,
    }
}

/// Translates a Synergy mouse button id into its HID button bit, 0 for none.
pub fn synergy_mouse_button(button: i8) -> (r: u8)
    ensures
        r == mouse_button_bit(button),
{
    match button {
        1 => 0x01,
        2 => 0x04,
        3 => 0x02,
        _ => 0,
    }
}

} // verus!
