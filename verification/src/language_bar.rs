//! The language-bar mode button: what it shows for each input mode and
//! theme, and the single event sink it accepts.

use crate::key_handler::InputMode;
use vstd::prelude::*;

verus! {

/// The button's text: `中` in Chinese mode, `A` in direct mode.
pub fn mode_label(mode: InputMode) -> (s: &'static str)
    ensures
        mode == InputMode::Chinese ==> s@ == "中"@,
        mode == InputMode::Direct ==> s@ == "A"@,
{
    match mode {
        InputMode::Chinese => "中",
        InputMode::Direct => "A",
    }
}

/// The button's tooltip.
pub fn mode_tooltip(mode: InputMode) -> (s: &'static str)
    ensures
        mode == InputMode::Chinese ==> s@ == "CheIME 中文模式"@,
        mode == InputMode::Direct ==> s@ == "CheIME 英文模式"@,
{
    match mode {
        InputMode::Chinese => "CheIME 中文模式",
        InputMode::Direct => "CheIME 英文模式",
    }
}

/// The icon file beside the DLL: the mode's glyph, white on a dark theme
/// and black otherwise.
pub fn mode_icon(mode: InputMode, dark_theme: bool) -> (s: &'static str)
    ensures
        mode == InputMode::Chinese && !dark_theme ==> s@ == "zh-black.ico"@,
        mode == InputMode::Chinese && dark_theme ==> s@ == "zh-white.ico"@,
        mode == InputMode::Direct && !dark_theme ==> s@ == "en-black.ico"@,
        mode == InputMode::Direct && dark_theme ==> s@ == "en-white.ico"@,
{
    match (mode, dark_theme) {
        (InputMode::Chinese, false) => "zh-black.ico",
        (InputMode::Chinese, true) => "zh-white.ico",
        (InputMode::Direct, false) => "en-black.ico",
        (InputMode::Direct, true) => "en-white.ico",
    }
}

/// The button's status flags: 0 when shown, 1 (hidden) otherwise.
pub fn button_status(visible: bool) -> (s: u32)
    ensures
        s == (if visible {
            0u32
        } else {
            1u32
        }),
{
    if visible {
        0
    } else {
        1
    }
}

/// Why the button refuses an event sink.
#[derive(Clone, Copy, Debug, PartialEq, Eq, Structural)]
pub enum SinkError {
    /// The interface id or the sink is missing.
    NullPointer,
    /// The sink is not a language-bar item sink.
    NoInterface,
    /// A sink is advised already, or the cookie is not the advised one.
    Failed,
}

/// The one cookie the button hands out.
pub const SINK_COOKIE: u32 = 1;

/// The button's event sink slot.
pub struct SinkSlot<S> {
    sink: Option<S>,
}

impl<S> View for SinkSlot<S> {
    type V = Option<S>;

    closed spec fn view(&self) -> Option<S> {
        self.sink
    }
}

impl<S> SinkSlot<S> {
    pub fn new() -> (s: Self)
        ensures
            s@ is None,
    {
        SinkSlot { sink: None }
    }

    /// Whether an advise call passes its checks: both pointers present, the
    /// language-bar item sink's interface asked for, and no sink yet.
    pub fn check_advise(&self, has_interface_id: bool, has_sink: bool, is_item_sink: bool) -> (r: Result<(), SinkError>)
        ensures
            !has_interface_id || !has_sink ==> r == Err::<(), SinkError>(SinkError::NullPointer),
            has_interface_id && has_sink && !is_item_sink ==> r == Err::<(), SinkError>(SinkError::NoInterface),
            has_interface_id && has_sink && is_item_sink && self@ is Some ==> r == Err::<(), SinkError>(
                SinkError::Failed,
            ),
            has_interface_id && has_sink && is_item_sink && self@ is None ==> r is Ok,
    {
        if !has_interface_id || !has_sink {
            return Err(SinkError::NullPointer);
        }
        if !is_item_sink {
            return Err(SinkError::NoInterface);
        }
        if self.sink.is_some() {
            return Err(SinkError::Failed);
        }
        Ok(())
    }

    /// Keep `sink`; the cookie to unadvise it with.
    pub fn advise(&mut self, sink: S) -> (cookie: u32)
        requires
            old(self)@ is None,
        ensures
            cookie == SINK_COOKIE,
            final(self)@ == Some(sink),
    {
        self.sink = Some(sink);
        SINK_COOKIE
    }

    /// Give back the sink advised under `cookie`.
    pub fn unadvise(&mut self, cookie: u32) -> (r: Result<S, SinkError>)
        ensures
            cookie != SINK_COOKIE || old(self)@ is None ==> r == Err::<S, SinkError>(SinkError::Failed)
                && final(self)@ == old(self)@,
            cookie == SINK_COOKIE && old(self)@ is Some ==> r == Ok::<S, SinkError>(old(self)@->0)
                && final(self)@ is None,
    {
        if cookie != SINK_COOKIE || self.sink.is_none() {
            return Err(SinkError::Failed);
        }
        match self.sink.take() {
            Some(s) => Ok(s),
            None => Err(SinkError::Failed),
        }
    }

    /// The advised sink, to notify it of a mode change.
    pub fn sink(&self) -> (s: Option<&S>)
        ensures
            match s {
                Some(v) => self@ == Some(*v),
                None => self@ is None,
            },
    {
        self.sink.as_ref()
    }
}

} // verus!
