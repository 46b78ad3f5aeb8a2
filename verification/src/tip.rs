//! The text input processor object's own state: its reference count, input
//! mode, activation and connection flags, the outbound channel and the
//! sequence numbers of the key commands it sends.

use crate::channel::TipChannel;
use crate::key_events::{spec_vk_to_key, vk_to_key, Key, KeyState};
use crate::key_handler::{check_key, spec_check_key, InputMode, KeyAdmission};
use crate::model::MessageHeader;
use crate::session::CORE_PROTOCOL_VERSION;
use vstd::prelude::*;

verus! {

/// A key sent to the engine.
#[derive(Clone, Copy, Debug, PartialEq, Eq, Structural)]
pub struct KeyCommand {
    pub header: MessageHeader,
    pub key: Key,
    pub state: KeyState,
}

/// The header of the `sequence`-th key command of a not yet negotiated
/// session.
pub open spec fn key_command_header(sequence: u64) -> MessageHeader {
    MessageHeader {
        protocol_version: CORE_PROTOCOL_VERSION,
        client: 1,
        session: 1,
        epoch: 1,
        sequence,
        revision: 0,
        deployment: 1,
    }
}

/// The text input processor's state.
pub struct CheimeTip {
    ref_count: u32,
    mode: InputMode,
    pub activated: bool,
    pub channel: Option<TipChannel<KeyCommand>>,
    pub connected: bool,
    sequence: u64,
}

/// The state as plain values.
pub struct TipView {
    pub ref_count: u32,
    pub mode: InputMode,
    pub activated: bool,
    pub has_channel: bool,
    /// The key commands handed to the outbound channel, in order (none
    /// while there is no channel).
    pub sent: Seq<KeyCommand>,
    pub connected: bool,
    pub sequence: u64,
}

impl View for CheimeTip {
    type V = TipView;

    closed spec fn view(&self) -> TipView {
        TipView {
            ref_count: self.ref_count,
            mode: self.mode,
            activated: self.activated,
            has_channel: self.channel is Some,
            sent: match self.channel {
                Some(c) => c.offered(),
                None => Seq::empty(),
            },
            connected: self.connected,
            sequence: self.sequence,
        }
    }
}

pub open spec fn toggled(mode: InputMode) -> InputMode {
    match mode {
        InputMode::Chinese => InputMode::Direct,
        InputMode::Direct => InputMode::Chinese,
    }
}

impl CheimeTip {
    /// A new instance: one reference, Chinese mode, inactive, no channel,
    /// first sequence number 1.
    pub fn new() -> (t: Self)
        ensures
            t@ == (TipView {
                ref_count: 1,
                mode: InputMode::Chinese,
                activated: false,
                has_channel: false,
                sent: Seq::empty(),
                connected: false,
                sequence: 1,
            }),
    {
        CheimeTip {
            ref_count: 1,
            mode: InputMode::Chinese,
            activated: false,
            channel: None,
            connected: false,
            sequence: 1,
        }
    }

    /// Take a reference; the new count.
    pub fn add_ref(&mut self) -> (n: u32)
        requires
            old(self)@.ref_count < u32::MAX,
        ensures
            n == old(self)@.ref_count + 1,
            final(self)@ == (TipView { ref_count: n, ..old(self)@ }),
    {
        self.ref_count = self.ref_count + 1;
        self.ref_count
    }

    /// Drop a reference; the new count.
    pub fn release(&mut self) -> (n: u32)
        requires
            old(self)@.ref_count > 0,
        ensures
            n == old(self)@.ref_count - 1,
            final(self)@ == (TipView { ref_count: n, ..old(self)@ }),
    {
        self.ref_count = self.ref_count - 1;
        self.ref_count
    }

    pub fn mode(&self) -> (m: InputMode)
        ensures
            m == self@.mode,
    {
        self.mode
    }

    /// Activate: open the outbound channel if there is none, and start
    /// disconnected.
    pub fn activate(&mut self)
        ensures
            final(self)@ == (TipView { activated: true, has_channel: true, connected: false, ..old(self)@ }),
    {
        self.activated = true;
        if self.channel.is_none() {
            self.channel = Some(TipChannel::new(64));
        }
        self.connected = false;
    }

    /// Deactivate: inactive and disconnected.
    pub fn deactivate(&mut self)
        ensures
            final(self)@ == (TipView { activated: false, connected: false, ..old(self)@ }),
    {
        self.activated = false;
        self.connected = false;
    }

    /// Switch between Chinese and direct input.
    pub fn toggle_mode(&mut self)
        ensures
            final(self)@ == (TipView { mode: toggled(old(self)@.mode), ..old(self)@ }),
    {
        self.mode = match self.mode {
            InputMode::Chinese => InputMode::Direct,
            InputMode::Direct => InputMode::Chinese,
        };
    }

    /// Whether the key is handled, toggles the mode or passes through; this
    /// object keeps no composition.
    pub fn test_key(&self, key_code: u32, is_shift: bool, is_ctrl: bool, is_alt: bool) -> (a: KeyAdmission)
        ensures
            a == spec_check_key(self@.mode, self@.activated, key_code, is_shift, is_ctrl, is_alt, false),
    {
        check_key(self.mode, self.activated, key_code, is_shift, is_ctrl, is_alt, false)
    }

    /// Handle a key: toggle the mode, or send it to the engine under the
    /// next sequence number (when the channel is open); `true` when the key
    /// is eaten. The command handed to the channel is returned with it.
    pub fn handle_key(&mut self, key_code: u32, is_shift: bool, is_ctrl: bool, is_alt: bool) -> (r: (
        bool,
        Option<KeyCommand>,
    ))
        requires
            old(self)@.sequence < u64::MAX,
        ensures
            ({
                let a = spec_check_key(old(self)@.mode, old(self)@.activated, key_code, is_shift, is_ctrl, is_alt, false);
                &&& r.0 == (a != KeyAdmission::PassThrough)
                &&& a == KeyAdmission::ToggleMode ==> final(self)@ == (TipView {
                    mode: toggled(old(self)@.mode),
                    ..old(self)@
                }) && r.1 is None
                &&& a == KeyAdmission::PassThrough ==> final(self)@ == old(self)@ && r.1 is None
                &&& a == KeyAdmission::Handled && old(self)@.has_channel ==> r.1 == Some(
                    KeyCommand {
                        header: key_command_header(old(self)@.sequence),
                        key: spec_vk_to_key(key_code),
                        state: KeyState { shift: is_shift, control: is_ctrl, alt: is_alt },
                    },
                ) && final(self)@ == (TipView {
                    sequence: (old(self)@.sequence + 1) as u64,
                    sent: old(self)@.sent.push(r.1->0),
                    ..old(self)@
                })
                &&& a == KeyAdmission::Handled && !old(self)@.has_channel ==> final(self)@ == old(self)@ && r.1 is None
            }),
    {
        match self.test_key(key_code, is_shift, is_ctrl, is_alt) {
            KeyAdmission::ToggleMode => {
                self.toggle_mode();
                (true, None)
            },
            KeyAdmission::Handled => {
                let key = vk_to_key(key_code);
                let state = KeyState { shift: is_shift, control: is_ctrl, alt: is_alt };
                match self.channel.take() {
                    Some(mut channel) => {
                        let seq = self.sequence;
                        let command = KeyCommand {
                            header: MessageHeader {
                                protocol_version: CORE_PROTOCOL_VERSION,
                                client: 1,
                                session: 1,
                                epoch: 1,
                                sequence: seq,
                                revision: 0,
                                deployment: 1,
                            },
                            key,
                            state,
                        };
                        let _ = channel.try_send(command);
                        self.channel = Some(channel);
                        self.sequence = seq + 1;
                        (true, Some(command))
                    },
                    None => (true, None),
                }
            },
            KeyAdmission::PassThrough => (false, None),
        }
    }
}

} // verus!
