//! Key admission rules for `OnTestKeyDown`: which keys CheIME handles in
//! each input mode. Pure functions of the key and modifier state.

use vstd::prelude::*;

verus! {

/// Virtual key codes used by the admission rules.
pub const VK_BACK: u32 = 0x08;
pub const VK_RETURN: u32 = 0x0D;
pub const VK_ESCAPE: u32 = 0x1B;
pub const VK_SPACE: u32 = 0x20;

/// Input mode tracked locally in the TIP.
#[derive(Clone, Copy, Debug, PartialEq, Eq, Structural)]
pub enum InputMode {
    /// Direct pass-through (English-like).
    Direct,
    /// CheIME processes Chinese Pinyin input.
    Chinese,
}

/// Result of a key admission check.
#[derive(Clone, Copy, Debug, PartialEq, Eq, Structural)]
pub enum KeyAdmission {
    /// CheIME handles this key.
    Handled,
    /// Pass through to the application.
    PassThrough,
    /// Toggle between Chinese and Direct mode.
    ToggleMode,
}

/// Ctrl+Space or Shift+Space with exactly one of the two modifiers and no Alt.
pub open spec fn is_toggle_chord(key_code: u32, is_shift: bool, is_ctrl: bool, is_alt: bool) -> bool {
    key_code == VK_SPACE && !is_alt && (is_ctrl != is_shift)
}

/// Keys that are handled only while a composition is in progress.
pub open spec fn needs_composition(key_code: u32) -> bool {
    key_code == VK_BACK || key_code == VK_SPACE || (0x30 <= key_code <= 0x39) || (0x60 <= key_code
        <= 0x69)
}

/// Keys that are always handled in Chinese mode without modifiers:
/// letters, Enter, Escape, `=`/`+`, `-`, PageUp/PageDown and Up/Down.
pub open spec fn always_handled(key_code: u32) -> bool {
    ||| 0x41 <= key_code <= 0x5A
    ||| key_code == VK_RETURN
    ||| key_code == VK_ESCAPE
    ||| key_code == 0xBB || key_code == 0x6B
    ||| key_code == 0xBD || key_code == 0x6D
    ||| key_code == 0x21 || key_code == 0x22
    ||| key_code == 0x26 || key_code == 0x28
}

/// The admission matrix for Chinese mode.
pub open spec fn spec_chinese_mode_keys(
    key_code: u32,
    is_shift: bool,
    is_ctrl: bool,
    is_alt: bool,
    has_composition: bool,
) -> KeyAdmission {
    if is_toggle_chord(key_code, is_shift, is_ctrl, is_alt) {
        KeyAdmission::ToggleMode
    } else if is_ctrl || is_alt {
        KeyAdmission::PassThrough
    } else if always_handled(key_code) {
        KeyAdmission::Handled
    } else if needs_composition(key_code) && has_composition {
        KeyAdmission::Handled
    } else {
        KeyAdmission::PassThrough
    }
}

/// The full admission matrix.
pub open spec fn spec_check_key(
    mode: InputMode,
    cheime_activated: bool,
    key_code: u32,
    is_shift: bool,
    is_ctrl: bool,
    is_alt: bool,
    has_composition: bool,
) -> KeyAdmission {
    if !cheime_activated {
        if is_toggle_chord(key_code, is_shift, is_ctrl, is_alt) {
            KeyAdmission::ToggleMode
        } else {
            KeyAdmission::PassThrough
        }
    } else {
        match mode {
            InputMode::Direct => if key_code == VK_SPACE && !is_alt && (is_ctrl || is_shift) {
                KeyAdmission::ToggleMode
            } else {
                KeyAdmission::PassThrough
            },
            InputMode::Chinese => spec_chinese_mode_keys(
                key_code,
                is_shift,
                is_ctrl,
                is_alt,
                has_composition,
            ),
        }
    }
}

/// Decide whether CheIME handles a key, given the current mode and whether
/// CheIME is activated. This is the logic of `OnTestKeyDown`: no side effects.
pub fn check_key(
    mode: InputMode,
    cheime_activated: bool,
    key_code: u32,
    is_shift: bool,
    is_ctrl: bool,
    is_alt: bool,
    has_composition: bool,
) -> (admission: KeyAdmission)
    ensures
        admission == spec_check_key(
            mode,
            cheime_activated,
            key_code,
            is_shift,
            is_ctrl,
            is_alt,
            has_composition,
        ),
{
    if !cheime_activated {
        if is_ctrl && !is_shift && !is_alt && key_code == VK_SPACE {
            return KeyAdmission::ToggleMode;
        }
        if is_shift && !is_ctrl && !is_alt && key_code == VK_SPACE {
            return KeyAdmission::ToggleMode;
        }
        return KeyAdmission::PassThrough;
    }
    match mode {
        InputMode::Direct => {
            if !is_alt && key_code == VK_SPACE && (is_ctrl || is_shift) {
                return KeyAdmission::ToggleMode;
            }
            KeyAdmission::PassThrough
        },
        InputMode::Chinese => chinese_mode_keys(
            key_code,
            is_shift,
            is_ctrl,
            is_alt,
            has_composition,
        ),
    }
}

/// Key admission for Chinese input mode.
fn chinese_mode_keys(
    key_code: u32,
    is_shift: bool,
    is_ctrl: bool,
    is_alt: bool,
    has_composition: bool,
) -> (admission: KeyAdmission)
    ensures
        admission == spec_chinese_mode_keys(key_code, is_shift, is_ctrl, is_alt, has_composition),
{
    if key_code == VK_SPACE && !is_alt {
        if is_ctrl && !is_shift {
            return KeyAdmission::ToggleMode;
        }
        if is_shift && !is_ctrl {
            return KeyAdmission::ToggleMode;
        }
    }
    if is_ctrl || is_alt {
        return KeyAdmission::PassThrough;
    }
    if 0x41 <= key_code && key_code <= 0x5A {
        KeyAdmission::Handled
    } else if key_code == VK_BACK {
        if has_composition {
            KeyAdmission::Handled
        } else {
            KeyAdmission::PassThrough
        }
    } else if key_code == VK_RETURN || key_code == VK_ESCAPE {
        KeyAdmission::Handled
    } else if key_code == VK_SPACE {
        if has_composition {
            KeyAdmission::Handled
        } else {
            KeyAdmission::PassThrough
        }
    } else if (0x30 <= key_code && key_code <= 0x39) || (0x60 <= key_code && key_code <= 0x69) {
        if has_composition {
            KeyAdmission::Handled
        } else {
            KeyAdmission::PassThrough
        }
    } else if key_code == 0xBB || key_code == 0x6B || key_code == 0xBD || key_code == 0x6D {
        KeyAdmission::Handled
    } else if key_code == 0x21 || key_code == 0x22 || key_code == 0x26 || key_code == 0x28 {
        KeyAdmission::Handled
    } else {
        KeyAdmission::PassThrough
    }
}

/// In Chinese mode, with the text service activated and neither Ctrl nor
/// Alt held: letters, Enter, Escape, the paging keys (`=`, numpad `+`, `-`,
/// numpad `-`, PageUp, PageDown) and Up/Down are handled whether or not a
/// composition is in progress; Backspace, Space and the digits (top row and
/// numpad) are handled exactly when one is; Left/Right and any other key
/// go to the application.
pub proof fn lemma_chinese_mode_admission(key_code: u32, is_shift: bool, has_composition: bool)
    ensures
        ({
            let a = spec_check_key(InputMode::Chinese, true, key_code, is_shift, false, false, has_composition);
            let always = (0x41 <= key_code <= 0x5A) || key_code == 0x0D || key_code == 0x1B
                || key_code == 0xBB || key_code == 0x6B || key_code == 0xBD || key_code == 0x6D
                || key_code == 0x21 || key_code == 0x22 || key_code == 0x26 || key_code == 0x28;
            let composing = key_code == 0x08 || (0x30 <= key_code <= 0x39) || (0x60 <= key_code
                <= 0x69) || (key_code == 0x20 && !is_shift);
            &&& always ==> a == KeyAdmission::Handled
            &&& composing ==> (a == KeyAdmission::Handled <==> has_composition)
            &&& composing && !has_composition ==> a == KeyAdmission::PassThrough
            &&& (key_code == 0x25 || key_code == 0x27) ==> a == KeyAdmission::PassThrough
            &&& !always && !composing && key_code != 0x20 ==> a == KeyAdmission::PassThrough
            &&& key_code == 0x20 && is_shift ==> a == KeyAdmission::ToggleMode
        }),
{
}

/// With Ctrl or Alt held, a key other than the Ctrl+Space or Shift+Space
/// switch always goes to the application; before activation, and in direct
/// mode, only the switch chords are taken.
pub proof fn lemma_modifiers_and_inactive_pass_through(
    mode: InputMode,
    activated: bool,
    key_code: u32,
    is_shift: bool,
    is_ctrl: bool,
    is_alt: bool,
    has_composition: bool,
)
    ensures
        key_code != 0x20 && (is_ctrl || is_alt) ==> spec_check_key(mode, activated, key_code, is_shift, is_ctrl, is_alt, has_composition)
            == KeyAdmission::PassThrough,
        key_code != 0x20 && (!activated || mode == InputMode::Direct) ==> spec_check_key(
            mode,
            activated,
            key_code,
            is_shift,
            is_ctrl,
            is_alt,
            has_composition,
        ) == KeyAdmission::PassThrough,
        key_code == 0x20 && !is_alt && is_ctrl && !is_shift ==> spec_check_key(mode, activated, key_code, is_shift, is_ctrl, is_alt, has_composition)
            == KeyAdmission::ToggleMode,
{
}

} // verus!
