use cheime_tip::key_events::{Key, KeyState};
use cheime_tip::key_handler::{InputMode, KeyAdmission};
use cheime_tip::tip::CheimeTip;

#[test]
fn tip_new_has_ref_count_one() {
    let mut t = CheimeTip::new();
    assert_eq!(t.add_ref(), 2);
    assert_eq!(t.release(), 1);
    assert_eq!(t.release(), 0);
}

#[test]
fn add_ref_and_release() {
    let mut t = CheimeTip::new();
    assert_eq!(t.add_ref(), 2);
    assert_eq!(t.release(), 1);
}

#[test]
fn new_tip_starts_in_chinese_mode() {
    assert_eq!(CheimeTip::new().mode(), InputMode::Chinese);
}

#[test]
fn toggle_switches_mode() {
    let mut t = CheimeTip::new();
    assert_eq!(t.mode(), InputMode::Chinese);
    t.toggle_mode();
    assert_eq!(t.mode(), InputMode::Direct);
}

#[test]
fn activate_sets_up_channel() {
    let mut t = CheimeTip::new();
    t.activate();
    assert!(t.channel.is_some());
}

#[test]
fn deactivate_clears_state() {
    let mut t = CheimeTip::new();
    t.activate();
    t.connected = true;
    t.deactivate();
    assert!(!t.connected);
}

#[test]
fn test_key_passes_through_when_not_activated() {
    assert_eq!(
        CheimeTip::new().test_key(0x41, false, false, false),
        KeyAdmission::PassThrough
    );
}

#[test]
fn test_key_handles_letter_when_activated() {
    let mut t = CheimeTip::new();
    t.activate();
    assert_eq!(t.test_key(0x41, false, false, false), KeyAdmission::Handled);
}

#[test]
fn handle_key_consumes_when_handled() {
    let mut t = CheimeTip::new();
    t.activate();
    assert!(t.handle_key(0x41, false, false, false).0);
}

#[test]
fn handle_key_passes_through_when_not_handled() {
    let mut t = CheimeTip::new();
    t.activate();
    assert!(!t.handle_key(0x70, false, false, false).0);
}

#[test]
fn handle_key_toggle_mode_actually_switches() {
    let mut t = CheimeTip::new();
    t.activate();
    t.handle_key(0x20, true, false, false);
    assert_eq!(t.mode(), InputMode::Direct);
}

#[test]
fn handled_keys_are_sent_with_consecutive_sequence_numbers() {
    let mut t = CheimeTip::new();
    t.activate();
    let receiver = t.channel.as_mut().unwrap().take_receiver().unwrap();
    let first = t.handle_key(0x41, false, false, false).1.unwrap();
    let second = t.handle_key(0x42, true, false, false).1.unwrap();
    assert_eq!(first.header.sequence, 1);
    assert_eq!(second.header.sequence, 2);
    assert_eq!(first.key, Key::Character('a'));
    assert_eq!(second.state, KeyState { shift: true, control: false, alt: false });
    assert_eq!(receiver.try_recv().unwrap(), first);
    assert_eq!(receiver.try_recv().unwrap(), second);
}

#[test]
fn handled_keys_are_sent_to_the_engine_in_order() {
    let mut t = CheimeTip::new();
    t.activate();
    let rx = t.channel.as_mut().unwrap().take_receiver().unwrap();
    let (_, first) = t.handle_key(0x4E, false, false, false);
    let (_, second) = t.handle_key(0x49, true, false, false);
    let received: Vec<_> = rx.try_iter().collect();
    assert_eq!(received, vec![first.unwrap(), second.unwrap()]);
    assert_eq!(received[0].header.sequence, 1);
    assert_eq!(received[1].header.sequence, 2);
    assert_eq!(received[1].state, KeyState { shift: true, control: false, alt: false });
}
