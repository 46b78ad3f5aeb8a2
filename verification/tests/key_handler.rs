use cheime_tip::key_handler::{check_key, InputMode, KeyAdmission};
// Virtual key constants
const VK_BACK: u32 = 0x08;
const VK_RETURN: u32 = 0x0D;
const VK_ESCAPE: u32 = 0x1B;
const VK_SPACE: u32 = 0x20;
const VK_PRIOR: u32 = 0x21; // PageUp
const VK_NEXT: u32 = 0x22; // PageDown
const VK_LEFT: u32 = 0x25;
const VK_UP: u32 = 0x26;
const VK_RIGHT: u32 = 0x27;
const VK_DOWN: u32 = 0x28;
const VK_A: u32 = 0x41;
const VK_Z: u32 = 0x5A;
const VK_0: u32 = 0x30;
const VK_9: u32 = 0x39;

#[test]
fn not_activated_passes_through_most_keys() {
    assert_eq!(
        check_key(InputMode::Chinese, false, VK_A, false, false, false, false),
        KeyAdmission::PassThrough
    );
    assert_eq!(
        check_key(
            InputMode::Chinese,
            false,
            VK_RETURN,
            false,
            false,
            false,
            false
        ),
        KeyAdmission::PassThrough
    );
    assert_eq!(
        check_key(
            InputMode::Chinese,
            false,
            VK_SPACE,
            false,
            false,
            false,
            false
        ),
        KeyAdmission::PassThrough
    );
}

#[test]
fn ctrl_space_toggles_even_when_not_activated() {
    assert_eq!(
        check_key(
            InputMode::Direct,
            false,
            VK_SPACE,
            false,
            true,
            false,
            false
        ),
        KeyAdmission::ToggleMode
    );
    assert_eq!(
        check_key(
            InputMode::Chinese,
            false,
            VK_SPACE,
            false,
            true,
            false,
            false
        ),
        KeyAdmission::ToggleMode
    );
}

#[test]
fn shift_space_toggles_when_activated() {
    // Shift+Space toggles when CheIME is activated
    assert_eq!(
        check_key(InputMode::Direct, true, VK_SPACE, true, false, false, false),
        KeyAdmission::ToggleMode
    );
    assert_eq!(
        check_key(
            InputMode::Chinese,
            true,
            VK_SPACE,
            true,
            false,
            false,
            false
        ),
        KeyAdmission::ToggleMode
    );
}

#[test]
fn direct_mode_passes_through_letters() {
    assert_eq!(
        check_key(InputMode::Direct, true, VK_A, false, false, false, false),
        KeyAdmission::PassThrough
    );
    assert_eq!(
        check_key(InputMode::Direct, true, VK_Z, false, false, false, false),
        KeyAdmission::PassThrough
    );
}

#[test]
fn chinese_mode_handles_letters() {
    assert_eq!(
        check_key(InputMode::Chinese, true, VK_A, false, false, false, false),
        KeyAdmission::Handled
    );
    assert_eq!(
        check_key(InputMode::Chinese, true, VK_Z, false, false, false, false),
        KeyAdmission::Handled
    );
}

#[test]
fn chinese_mode_handles_special_keys() {
    // Backspace is handled when composition exists
    assert_eq!(
        check_key(InputMode::Chinese, true, VK_BACK, false, false, false, true),
        KeyAdmission::Handled
    );
    assert_eq!(
        check_key(
            InputMode::Chinese,
            true,
            VK_RETURN,
            false,
            false,
            false,
            false
        ),
        KeyAdmission::Handled
    );
    assert_eq!(
        check_key(
            InputMode::Chinese,
            true,
            VK_ESCAPE,
            false,
            false,
            false,
            false
        ),
        KeyAdmission::Handled
    );
    assert_eq!(
        check_key(
            InputMode::Chinese,
            true,
            VK_SPACE,
            false,
            false,
            false,
            true
        ),
        KeyAdmission::Handled
    );
}

#[test]
fn backspace_passes_through_when_no_composition() {
    assert_eq!(
        check_key(
            InputMode::Chinese,
            true,
            VK_BACK,
            false,
            false,
            false,
            false
        ),
        KeyAdmission::PassThrough
    );
}

#[test]
fn chinese_mode_handles_digits() {
    // Digits now pass-through to avoid crashing engine (candidate selection in TIP layer)
    for vk in VK_0..=VK_9 {
        assert_eq!(
            check_key(InputMode::Chinese, true, vk, false, false, false, false),
            KeyAdmission::PassThrough
        );
    }
}

#[test]
fn chinese_mode_handles_page_and_arrows() {
    assert_eq!(
        check_key(
            InputMode::Chinese,
            true,
            VK_PRIOR,
            false,
            false,
            false,
            false
        ),
        KeyAdmission::Handled
    );
    assert_eq!(
        check_key(
            InputMode::Chinese,
            true,
            VK_NEXT,
            false,
            false,
            false,
            false
        ),
        KeyAdmission::Handled
    );
    assert_eq!(
        check_key(InputMode::Chinese, true, VK_UP, false, false, false, false),
        KeyAdmission::Handled
    );
    assert_eq!(
        check_key(
            InputMode::Chinese,
            true,
            VK_DOWN,
            false,
            false,
            false,
            false
        ),
        KeyAdmission::Handled
    );
}

#[test]
fn chinese_mode_passes_through_left_right() {
    assert_eq!(
        check_key(
            InputMode::Chinese,
            true,
            VK_LEFT,
            false,
            false,
            false,
            false
        ),
        KeyAdmission::PassThrough
    );
    assert_eq!(
        check_key(
            InputMode::Chinese,
            true,
            VK_RIGHT,
            false,
            false,
            false,
            false
        ),
        KeyAdmission::PassThrough
    );
}

#[test]
fn ctrl_combos_pass_through() {
    // Ctrl+C should pass through (copy)
    assert_eq!(
        check_key(InputMode::Chinese, true, 0x43, false, true, false, false),
        KeyAdmission::PassThrough
    );
    // Ctrl+V should pass through (paste)
    assert_eq!(
        check_key(InputMode::Chinese, true, 0x56, false, true, false, false),
        KeyAdmission::PassThrough
    );
}

#[test]
fn alt_combos_pass_through() {
    // Alt+F should pass through
    assert_eq!(
        check_key(InputMode::Chinese, true, 0x46, false, false, true, false),
        KeyAdmission::PassThrough
    );
}

#[test]
fn unknown_keys_pass_through() {
    // F1
    assert_eq!(
        check_key(InputMode::Chinese, true, 0x70, false, false, false, false),
        KeyAdmission::PassThrough
    );
    // Tab
    assert_eq!(
        check_key(InputMode::Chinese, true, 0x09, false, false, false, false),
        KeyAdmission::PassThrough
    );
}
