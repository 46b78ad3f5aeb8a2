use cheime_tip::key_events::{
    digit_offset, key_down, test_key_down, vk_to_key, Key, KeyDownAction, KeyDownInput, KeyState,
};
use cheime_tip::key_handler::{InputMode, KeyAdmission};

fn input(key_code: u32) -> KeyDownInput {
    KeyDownInput {
        key_code,
        shift: false,
        ctrl: false,
        alt: false,
        admission_enabled: Some(true),
        mode: InputMode::Chinese,
        has_composition: false,
        page_len: None,
    }
}

#[test]
fn vk_to_key_conversion() {
    assert_eq!(vk_to_key(0x41), Key::Character('a'));
    assert_eq!(vk_to_key(0x30), Key::Character('0'));
}

#[test]
fn vk_to_key_covers_named_keys_keypad_and_punctuation() {
    assert_eq!(vk_to_key(0x08), Key::Backspace);
    assert_eq!(vk_to_key(0x0D), Key::Enter);
    assert_eq!(vk_to_key(0x1B), Key::Escape);
    assert_eq!(vk_to_key(0x20), Key::Space);
    assert_eq!(vk_to_key(0x5A), Key::Character('z'));
    assert_eq!(vk_to_key(0x69), Key::Character('9'));
    assert_eq!(vk_to_key(0xBC), Key::Character(','));
    assert_eq!(vk_to_key(0xDC), Key::Character('\\'));
    assert_eq!(vk_to_key(0xDE), Key::Character('\''));
    assert_eq!(vk_to_key(0x70), Key::Character('?'));
}

#[test]
fn digits_pick_page_positions_and_zero_the_tenth() {
    assert_eq!(digit_offset(0x31), Some(0));
    assert_eq!(digit_offset(0x39), Some(8));
    assert_eq!(digit_offset(0x30), Some(9));
    assert_eq!(digit_offset(0x60), Some(9));
    assert_eq!(digit_offset(0x62), Some(1));
    assert_eq!(digit_offset(0x41), None);
}

#[test]
fn a_digit_commits_an_existing_candidate_while_composing() {
    let mut i = input(0x32);
    i.has_composition = true;
    i.page_len = Some(5);
    assert_eq!(key_down(&i), KeyDownAction::CommitCandidate(1));
    i.page_len = Some(1);
    assert_eq!(key_down(&i), KeyDownAction::SendKey(Key::Character('2'), KeyState { shift: false, control: false, alt: false }));
    i.has_composition = false;
    i.page_len = Some(5);
    assert_eq!(key_down(&i), KeyDownAction::PassThrough);
}

#[test]
fn letters_go_to_the_engine_and_chords_toggle() {
    assert_eq!(
        key_down(&input(0x41)),
        KeyDownAction::SendKey(Key::Character('a'), KeyState { shift: false, control: false, alt: false })
    );
    let mut chord = input(0x20);
    chord.ctrl = true;
    assert_eq!(key_down(&chord), KeyDownAction::SwitchMode(InputMode::Direct));
    chord.mode = InputMode::Direct;
    assert_eq!(key_down(&chord), KeyDownAction::SwitchMode(InputMode::Chinese));
    assert_eq!(test_key_down(&chord), KeyAdmission::ToggleMode);
}

#[test]
fn a_reentrant_call_passes_the_key_on() {
    let mut i = input(0x41);
    i.admission_enabled = None;
    assert_eq!(key_down(&i), KeyDownAction::PassThrough);
    assert_eq!(test_key_down(&i), KeyAdmission::PassThrough);
}

#[test]
fn all_key_callbacks_remain_transparent() {
    let mut deactivated = input(0x41);
    deactivated.admission_enabled = Some(false);
    // OnTestKeyDown and OnTestKeyUp report the same admission.
    assert_eq!(test_key_down(&deactivated), KeyAdmission::PassThrough);
    assert_eq!(test_key_down(&deactivated), KeyAdmission::PassThrough);
    assert_eq!(key_down(&deactivated), KeyDownAction::PassThrough);
}
