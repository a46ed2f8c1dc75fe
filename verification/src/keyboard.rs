//! Keyboard keys as input events. A key is named by its SDL scancode, which is its position
//! in the USB keyboard usage table, and sent as the Windows virtual key of that position on
//! a US layout. So the host sees the same key whatever layout the keyboard has.
use vstd::prelude::*;

use crate::input::{InputEvent, InputKind};

verus! {

/// The virtual key for the scancode `sc`, or none for a key that is not forwarded. Runs of
/// keys that both tables list in one order are given as ranges.
pub open spec fn virtual_key(sc: u32) -> Option<u32> {
    if 4 <= sc <= 29 {
        // A to Z
        Some((sc - 4 + 0x41) as u32)
    } else if 30 <= sc <= 38 {
        // 1 to 9 of the digit row
        Some((sc - 30 + 0x31) as u32)
    } else if 58 <= sc <= 69 {
        // F1 to F12
        Some((sc - 58 + 0x70) as u32)
    } else if 89 <= sc <= 97 {
        // 1 to 9 of the number pad
        Some((sc - 89 + 0x61) as u32)
    } else {
        single_key(sc)
    }
}

/// The virtual keys of the keys outside those runs.
pub open spec fn single_key(sc: u32) -> Option<u32> {
    match sc {
        39 => Some(0x30),  // 0 of the digit row
        40 => Some(0x0D),  // Return
        41 => Some(0x1B),  // Escape
        42 => Some(0x08),  // Backspace
        43 => Some(0x09),  // Tab
        44 => Some(0x20),  // Space
        45 => Some(0xBD),  // - _
        46 => Some(0xBB),  // = +
        47 => Some(0xDB),  // [ {
        48 => Some(0xDD),  // ] }
        49 => Some(0xDC),  // \ |
        51 => Some(0xBA),  // ; :
        52 => Some(0xDE),  // ' "
        53 => Some(0xC0),  // ` ~
        54 => Some(0xBC),  // , <
        55 => Some(0xBE),  // . >
        56 => Some(0xBF),  // / ?
        57 => Some(0x14),  // Caps Lock
        70 => Some(0x2C),  // Print Screen
        71 => Some(0x91),  // Scroll Lock
        72 => Some(0x13),  // Pause
        73 => Some(0x2D),  // Insert
        74 => Some(0x24),  // Home
        75 => Some(0x21),  // Page Up
        76 => Some(0x2E),  // Delete
        77 => Some(0x23),  // End
        78 => Some(0x22),  // Page Down
        79 => Some(0x27),  // Right
        80 => Some(0x25),  // Left
        81 => Some(0x28),  // Down
        82 => Some(0x26),  // Up
        83 => Some(0x90),  // Num Lock
        84 => Some(0x6F),  // number pad /
        85 => Some(0x6A),  // number pad *
        86 => Some(0x6D),  // number pad -
        87 => Some(0x6B),  // number pad +
        88 => Some(0x0D),  // number pad Enter
        98 => Some(0x60),  // 0 of the number pad
        99 => Some(0x6E),  // number pad .
        100 => Some(0xE2),  // the extra key of ISO layouts
        101 => Some(0x5D),  // context menu
        224 => Some(0xA2),  // left Ctrl
        225 => Some(0xA0),  // left Shift
        226 => Some(0xA4),  // left Alt
        227 => Some(0x5B),  // left Windows
        228 => Some(0xA3),  // right Ctrl
        229 => Some(0xA1),  // right Shift
        230 => Some(0xA5),  // right Alt
        231 => Some(0x5C),  // right Windows
        _ => None,
    }
}

/// The event for a press or a release of the key at `sc`.
pub open spec fn event_of_key(sc: u32, pressed: bool) -> Option<InputEvent> {
    match virtual_key(sc) {
        None => None,
        Some(vk) => Some(
            InputEvent {
                kind: if pressed {
                    InputKind::KeyDown
                } else {
                    InputKind::KeyUp
                },
                code: vk,
                x: 0,
                y: 0,
                flags: 0,
            },
        ),
    }
}

/// The virtual key for a scancode.
pub fn vk_code(sc: u32) -> (vk: Option<u32>)
    ensures
        vk == virtual_key(sc),
{
    if 4 <= sc && sc <= 29 {
        return Some(sc - 4 + 0x41);
    }
    if 30 <= sc && sc <= 38 {
        return Some(sc - 30 + 0x31);
    }
    if 58 <= sc && sc <= 69 {
        return Some(sc - 58 + 0x70);
    }
    if 89 <= sc && sc <= 97 {
        return Some(sc - 89 + 0x61);
    }
    match sc {
        39 => Some(0x30),
        40 => Some(0x0D),
        41 => Some(0x1B),
        42 => Some(0x08),
        43 => Some(0x09),
        44 => Some(0x20),
        45 => Some(0xBD),
        46 => Some(0xBB),
        47 => Some(0xDB),
        48 => Some(0xDD),
        49 => Some(0xDC),
        51 => Some(0xBA),
        52 => Some(0xDE),
        53 => Some(0xC0),
        54 => Some(0xBC),
        55 => Some(0xBE),
        56 => Some(0xBF),
        57 => Some(0x14),
        70 => Some(0x2C),
        71 => Some(0x91),
        72 => Some(0x13),
        73 => Some(0x2D),
        74 => Some(0x24),
        75 => Some(0x21),
        76 => Some(0x2E),
        77 => Some(0x23),
        78 => Some(0x22),
        79 => Some(0x27),
        80 => Some(0x25),
        81 => Some(0x28),
        82 => Some(0x26),
        83 => Some(0x90),
        84 => Some(0x6F),
        85 => Some(0x6A),
        86 => Some(0x6D),
        87 => Some(0x6B),
        88 => Some(0x0D),
        98 => Some(0x60),
        99 => Some(0x6E),
        100 => Some(0xE2),
        101 => Some(0x5D),
        224 => Some(0xA2),
        225 => Some(0xA0),
        226 => Some(0xA4),
        227 => Some(0x5B),
        228 => Some(0xA3),
        229 => Some(0xA1),
        230 => Some(0xA5),
        231 => Some(0x5C),
        _ => None,
    }
}

/// The input event for a key, or none for a key that is not forwarded.
pub fn key_event(scancode: u32, pressed: bool) -> (event: Option<InputEvent>)
    ensures
        event == event_of_key(scancode, pressed),
{
    match vk_code(scancode) {
        None => None,
        Some(code) => Some(
            InputEvent {
                kind: if pressed {
                    InputKind::KeyDown
                } else {
                    InputKind::KeyUp
                },
                code,
                x: 0,
                y: 0,
                flags: 0,
            },
        ),
    }
}

/// A key is forwarded when it is released exactly if it is when it is pressed, under the
/// same code: no key stays down on the host.
pub proof fn law_release_matches_press(sc: u32)
    ensures
        event_of_key(sc, true) is Some <==> event_of_key(sc, false) is Some,
        event_of_key(sc, true) is Some ==> event_of_key(sc, true)->0.code == event_of_key(
            sc,
            false,
        )->0.code,
{
}

/// A virtual key always fits in a byte.
pub proof fn law_virtual_keys_are_bytes(sc: u32)
    requires
        virtual_key(sc) is Some,
    ensures
        0 < virtual_key(sc)->0 < 0x100,
{
}

/// Two keys share a virtual key only where one is Return and the other Enter of the number
/// pad.
pub proof fn law_keys_are_told_apart(a: u32, b: u32)
    requires
        virtual_key(a) is Some,
        virtual_key(a) == virtual_key(b),
        a != b,
    ensures
        (a == 40 && b == 88) || (a == 88 && b == 40),
{
}

/// Letters, digits, function keys and those of the number pad keep their order, from the first of
/// each run on.
pub proof fn law_runs_keep_their_order(sc: u32)
    ensures
        4 <= sc <= 29 ==> virtual_key(sc) is Some && virtual_key(sc)->0 as int == 'A' as int + sc - 4,
        30 <= sc <= 38 ==> virtual_key(sc) is Some && virtual_key(sc)->0 as int == '1' as int + sc
            - 30,
        sc == 39 ==> virtual_key(sc) == Some('0' as u32),
        58 <= sc <= 69 ==> virtual_key(sc) is Some && virtual_key(sc)->0 as int == 0x70 + sc - 58,
        89 <= sc <= 97 ==> virtual_key(sc) is Some && virtual_key(sc)->0 as int == 0x61 + sc - 89,
        sc == 98 ==> virtual_key(sc) == Some(0x60u32),
{
}

/// The arrows, and the keys that move through a text, are the host's own.
pub proof fn law_arrows_are_arrows(sc: u32)
    ensures
        virtual_key(sc) == Some(0x25u32) <==> sc == 80,
        virtual_key(sc) == Some(0x26u32) <==> sc == 82,
        virtual_key(sc) == Some(0x27u32) <==> sc == 79,
        virtual_key(sc) == Some(0x28u32) <==> sc == 81,
        virtual_key(sc) == Some(0x21u32) <==> sc == 75,
        virtual_key(sc) == Some(0x22u32) <==> sc == 78,
        virtual_key(sc) == Some(0x23u32) <==> sc == 77,
        virtual_key(sc) == Some(0x24u32) <==> sc == 74,
        virtual_key(sc) == Some(0x2Du32) <==> sc == 73,
        virtual_key(sc) == Some(0x2Eu32) <==> sc == 76,
        virtual_key(sc) == Some(0x0Du32) <==> sc == 40 || sc == 88,
        virtual_key(sc) == Some(0x1Bu32) <==> sc == 41,
        virtual_key(sc) == Some(0x08u32) <==> sc == 42,
        virtual_key(sc) == Some(0x09u32) <==> sc == 43,
        virtual_key(sc) == Some(0x20u32) <==> sc == 44,
{
}

/// Left and right modifiers are told apart, and each is the one that it is.
pub proof fn law_modifiers_have_their_side(sc: u32)
    ensures
        virtual_key(sc) == Some(0xA0u32) <==> sc == 225,
        virtual_key(sc) == Some(0xA1u32) <==> sc == 229,
        virtual_key(sc) == Some(0xA2u32) <==> sc == 224,
        virtual_key(sc) == Some(0xA3u32) <==> sc == 228,
        virtual_key(sc) == Some(0xA4u32) <==> sc == 226,
        virtual_key(sc) == Some(0xA5u32) <==> sc == 230,
        virtual_key(sc) == Some(0x5Bu32) <==> sc == 227,
        virtual_key(sc) == Some(0x5Cu32) <==> sc == 231,
        virtual_key(sc) == Some(0x5Du32) <==> sc == 101,
        virtual_key(sc) == Some(0x14u32) <==> sc == 57,
        virtual_key(sc) == Some(0x90u32) <==> sc == 83,
        virtual_key(sc) == Some(0x91u32) <==> sc == 71,
        virtual_key(sc) == Some(0x2Cu32) <==> sc == 70,
        virtual_key(sc) == Some(0x13u32) <==> sc == 72,
{
}

/// The marks are those of a US layout, and those of the number pad are its own.
pub proof fn law_marks_are_those_of_a_us_layout(sc: u32)
    ensures
        virtual_key(sc) == Some(0xBDu32) <==> sc == 45,
        virtual_key(sc) == Some(0xBBu32) <==> sc == 46,
        virtual_key(sc) == Some(0xDBu32) <==> sc == 47,
        virtual_key(sc) == Some(0xDDu32) <==> sc == 48,
        virtual_key(sc) == Some(0xDCu32) <==> sc == 49,
        virtual_key(sc) == Some(0xBAu32) <==> sc == 51,
        virtual_key(sc) == Some(0xDEu32) <==> sc == 52,
        virtual_key(sc) == Some(0xC0u32) <==> sc == 53,
        virtual_key(sc) == Some(0xBCu32) <==> sc == 54,
        virtual_key(sc) == Some(0xBEu32) <==> sc == 55,
        virtual_key(sc) == Some(0xBFu32) <==> sc == 56,
        virtual_key(sc) == Some(0xE2u32) <==> sc == 100,
        virtual_key(sc) == Some(0x6Fu32) <==> sc == 84,
        virtual_key(sc) == Some(0x6Au32) <==> sc == 85,
        virtual_key(sc) == Some(0x6Du32) <==> sc == 86,
        virtual_key(sc) == Some(0x6Bu32) <==> sc == 87,
        virtual_key(sc) == Some(0x6Eu32) <==> sc == 99,
        sc < 4 || sc == 50 || 101 < sc < 224 || sc > 231 ==> virtual_key(sc) is None,
{
}

/// A press is sent as a press and a release as a release, with the key's code and nothing else.
pub proof fn law_press_is_sent_as_a_press(sc: u32, pressed: bool)
    ensures
        event_of_key(sc, pressed) is Some <==> virtual_key(sc) is Some,
        event_of_key(sc, pressed) matches Some(e) ==> virtual_key(sc) == Some(e.code) && (
        e.kind is KeyDown <==> pressed) && (e.kind is KeyUp <==> !pressed) && e.x == 0 && e.y == 0
            && e.flags == 0,
{
}

} // verus!
