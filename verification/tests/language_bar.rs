use cheime_tip::key_handler::InputMode;
use cheime_tip::language_bar::{
    button_status, mode_icon, mode_label, mode_tooltip, SinkError, SinkSlot, SINK_COOKIE,
};

#[test]
fn the_button_shows_the_mode() {
    assert_eq!(mode_label(InputMode::Chinese), "中");
    assert_eq!(mode_label(InputMode::Direct), "A");
    assert_eq!(mode_tooltip(InputMode::Chinese), "CheIME 中文模式");
    assert_eq!(mode_tooltip(InputMode::Direct), "CheIME 英文模式");
    assert_eq!(mode_icon(InputMode::Chinese, false), "zh-black.ico");
    assert_eq!(mode_icon(InputMode::Chinese, true), "zh-white.ico");
    assert_eq!(mode_icon(InputMode::Direct, false), "en-black.ico");
    assert_eq!(mode_icon(InputMode::Direct, true), "en-white.ico");
    assert_eq!(button_status(true), 0);
    assert_eq!(button_status(false), 1);
}

#[test]
fn one_sink_at_a_time_under_one_cookie() {
    let mut slot: SinkSlot<&str> = SinkSlot::new();
    assert_eq!(slot.check_advise(false, true, true), Err(SinkError::NullPointer));
    assert_eq!(slot.check_advise(true, true, false), Err(SinkError::NoInterface));
    assert_eq!(slot.check_advise(true, true, true), Ok(()));
    assert_eq!(slot.advise("sink"), SINK_COOKIE);
    assert_eq!(slot.check_advise(true, true, true), Err(SinkError::Failed));
    assert_eq!(slot.sink(), Some(&"sink"));
    assert_eq!(slot.unadvise(2), Err(SinkError::Failed));
    assert_eq!(slot.unadvise(SINK_COOKIE), Ok("sink"));
    assert_eq!(slot.unadvise(SINK_COOKIE), Err(SinkError::Failed));
}
