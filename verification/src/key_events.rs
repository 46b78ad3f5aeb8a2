//! What a key press does once admitted: the protocol key a virtual key code
//! stands for, the candidate a digit commits while composing, and the
//! decision of `OnKeyDown` (commit, send to the engine, toggle the mode, or
//! let the application have the key).

use crate::key_handler::{check_key, spec_check_key, InputMode, KeyAdmission};
use vstd::prelude::*;

verus! {

/// A key as the engine protocol names it.
#[derive(Clone, Copy, Debug, PartialEq, Eq, Structural)]
pub enum Key {
    Backspace,
    Enter,
    Escape,
    Space,
    Character(char),
}

/// The modifier state sent with a key.
#[derive(Clone, Copy, Debug, PartialEq, Eq, Structural)]
pub struct KeyState {
    pub shift: bool,
    pub control: bool,
    pub alt: bool,
}

/// The character of a letter key (`A`..`Z` give `a`..`z`), a digit key of
/// the main row or the keypad, or a punctuation key; `?` for any other.
pub open spec fn spec_vk_to_key(vk: u32) -> Key {
    if vk == 0x08 {
        Key::Backspace
    } else if vk == 0x0D {
        Key::Enter
    } else if vk == 0x1B {
        Key::Escape
    } else if vk == 0x20 {
        Key::Space
    } else if 0x41 <= vk <= 0x5A {
        Key::Character(((vk - 0x41) + 0x61) as char)
    } else if 0x30 <= vk <= 0x39 {
        Key::Character(((vk - 0x30) + 0x30) as char)
    } else if 0x60 <= vk <= 0x69 {
        Key::Character(((vk - 0x60) + 0x30) as char)
    } else if vk == 0xBC {
        Key::Character(',')
    } else if vk == 0xBE {
        Key::Character('.')
    } else if vk == 0xBA {
        Key::Character(';')
    } else if vk == 0xBF {
        Key::Character('/')
    } else if vk == 0xBB {
        Key::Character('=')
    } else if vk == 0xBD {
        Key::Character('-')
    } else if vk == 0xDB {
        Key::Character('[')
    } else if vk == 0xDD {
        Key::Character(']')
    } else if vk == 0xDC {
        Key::Character('\\')
    } else if vk == 0xC0 {
        Key::Character('`')
    } else if vk == 0xDE {
        Key::Character('\'')
    } else {
        Key::Character('?')
    }
}

/// The protocol key for a virtual key code.
pub fn vk_to_key(vk: u32) -> (k: Key)
    ensures
        k == spec_vk_to_key(vk),
{
    if vk == 0x08 {
        Key::Backspace
    } else if vk == 0x0D {
        Key::Enter
    } else if vk == 0x1B {
        Key::Escape
    } else if vk == 0x20 {
        Key::Space
    } else if 0x41 <= vk && vk <= 0x5A {
        Key::Character((((vk - 0x41) as u8) + 0x61u8) as char)
    } else if 0x30 <= vk && vk <= 0x39 {
        Key::Character((((vk - 0x30) as u8) + 0x30u8) as char)
    } else if 0x60 <= vk && vk <= 0x69 {
        Key::Character((((vk - 0x60) as u8) + 0x30u8) as char)
    } else if vk == 0xBC {
        Key::Character(',')
    } else if vk == 0xBE {
        Key::Character('.')
    } else if vk == 0xBA {
        Key::Character(';')
    } else if vk == 0xBF {
        Key::Character('/')
    } else if vk == 0xBB {
        Key::Character('=')
    } else if vk == 0xBD {
        Key::Character('-')
    } else if vk == 0xDB {
        Key::Character('[')
    } else if vk == 0xDD {
        Key::Character(']')
    } else if vk == 0xDC {
        Key::Character('\\')
    } else if vk == 0xC0 {
        Key::Character('`')
    } else if vk == 0xDE {
        Key::Character('\'')
    } else {
        Key::Character('?')
    }
}

/// The page position a digit key picks: `1`..`9` the first to ninth
/// candidate, `0` the tenth; `None` for a key that is no digit.
pub open spec fn spec_digit_offset(vk: u32) -> Option<usize> {
    let digit = if 0x60 <= vk <= 0x69 {
        vk - 0x60
    } else if 0x30 <= vk <= 0x39 {
        vk - 0x30
    } else {
        -1
    };
    if digit < 0 {
        None
    } else if digit == 0 {
        Some(9)
    } else {
        Some((digit - 1) as usize)
    }
}

pub fn digit_offset(vk: u32) -> (o: Option<usize>)
    ensures
        o == spec_digit_offset(vk),
{
    let digit = if 0x60 <= vk && vk <= 0x69 {
        vk - 0x60
    } else if 0x30 <= vk && vk <= 0x39 {
        vk - 0x30
    } else {
        return None;
    };
    if digit == 0 {
        Some(9)
    } else {
        Some((digit - 1) as usize)
    }
}

/// What `OnKeyDown` does with a key.
#[derive(Clone, Copy, Debug, PartialEq, Eq, Structural)]
pub enum KeyDownAction {
    /// Commit the candidate at this page position (the key is eaten).
    CommitCandidate(usize),
    /// Send the key to the engine (the key is eaten).
    SendKey(Key, KeyState),
    /// Switch to this mode and forget the composition (the key is eaten).
    SwitchMode(InputMode),
    /// Let the application have the key.
    PassThrough,
}

/// The state `OnKeyDown` decides on. `admission_enabled` is `None` when the
/// apartment state could not be read (a re-entrant call); `page_len` is the
/// number of candidates of the shown snapshot, `None` when none is shown.
#[derive(Clone, Copy, Debug, PartialEq, Eq, Structural)]
pub struct KeyDownInput {
    pub key_code: u32,
    pub shift: bool,
    pub ctrl: bool,
    pub alt: bool,
    pub admission_enabled: Option<bool>,
    pub mode: InputMode,
    pub has_composition: bool,
    pub page_len: Option<usize>,
}

pub open spec fn key_down_admission(i: KeyDownInput) -> KeyAdmission {
    let ctrl_space = i.key_code == 0x20 && i.ctrl && !i.alt && !i.shift;
    match i.admission_enabled {
        Some(enabled) => spec_check_key(i.mode, enabled, i.key_code, i.shift, i.ctrl || ctrl_space, i.alt, i.has_composition),
        None => KeyAdmission::PassThrough,
    }
}

/// A digit commits the candidate it picks when composing and that candidate
/// exists; otherwise the admission decides: send the key, switch modes, or
/// pass the key on.
pub open spec fn spec_key_down(i: KeyDownInput) -> KeyDownAction {
    let commit = match (spec_digit_offset(i.key_code), i.page_len) {
        (Some(offset), Some(len)) => if i.has_composition && offset < len {
            Some(offset)
        } else {
            None
        },
        _ => None,
    };
    match commit {
        Some(offset) => KeyDownAction::CommitCandidate(offset),
        None => match key_down_admission(i) {
            KeyAdmission::Handled => KeyDownAction::SendKey(
                spec_vk_to_key(i.key_code),
                KeyState { shift: i.shift, control: i.ctrl, alt: i.alt },
            ),
            KeyAdmission::ToggleMode => KeyDownAction::SwitchMode(
                match i.mode {
                    InputMode::Chinese => InputMode::Direct,
                    InputMode::Direct => InputMode::Chinese,
                },
            ),
            KeyAdmission::PassThrough => KeyDownAction::PassThrough,
        },
    }
}

/// The admission `OnTestKeyDown` reports.
pub fn test_key_down(i: &KeyDownInput) -> (a: KeyAdmission)
    ensures
        a == key_down_admission(*i),
{
    let ctrl_space = i.key_code == 0x20 && i.ctrl && !i.alt && !i.shift;
    match i.admission_enabled {
        Some(enabled) => check_key(i.mode, enabled, i.key_code, i.shift, i.ctrl || ctrl_space, i.alt, i.has_composition),
        None => KeyAdmission::PassThrough,
    }
}

/// The decision of `OnKeyDown`.
pub fn key_down(i: &KeyDownInput) -> (a: KeyDownAction)
    ensures
        a == spec_key_down(*i),
{
    if i.has_composition {
        match (digit_offset(i.key_code), i.page_len) {
            (Some(offset), Some(len)) => {
                if offset < len {
                    return KeyDownAction::CommitCandidate(offset);
                }
            },
            _ => {},
        }
    }
    match test_key_down(i) {
        KeyAdmission::Handled => KeyDownAction::SendKey(
            vk_to_key(i.key_code),
            KeyState { shift: i.shift, control: i.ctrl, alt: i.alt },
        ),
        KeyAdmission::ToggleMode => KeyDownAction::SwitchMode(
            match i.mode {
                InputMode::Chinese => InputMode::Direct,
                InputMode::Direct => InputMode::Chinese,
            },
        ),
        KeyAdmission::PassThrough => KeyDownAction::PassThrough,
    }
}

/// Whether a key is eaten: everything but passing it on.
pub open spec fn eaten(a: KeyDownAction) -> bool {
    !(a is PassThrough)
}

/// `OnKeyDown` eats a key exactly when `OnTestKeyDown` admits it, except a
/// digit that commits an existing candidate while composing, which is eaten
/// too.
pub proof fn lemma_key_down_agrees_with_test(i: KeyDownInput)
    ensures
        eaten(spec_key_down(i)) <==> (key_down_admission(i) != KeyAdmission::PassThrough || spec_key_down(
            i,
        ) is CommitCandidate),
{
}

/// A mode switch always leads to the other mode.
pub proof fn lemma_switch_changes_mode(i: KeyDownInput, m: InputMode)
    requires
        spec_key_down(i) == KeyDownAction::SwitchMode(m),
    ensures
        m != i.mode,
{
}

} // verus!
