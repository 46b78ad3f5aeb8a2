//! Platform-independent core of the CheIME Windows text input processor:
//! key admission and key handling, the activation, focus, edit-session and
//! I/O decisions, pipe framing and the session handshake, candidate-window
//! layout and rendering choices, UI configuration, and registration, each
//! with a machine-checked contract.

pub mod activation_flow;
pub mod candidate_rows;
pub mod candidate_window;
pub mod channel;
pub mod cli;
pub mod colors;
pub mod com;
pub mod display_attribute;
pub mod edit_plan;
pub mod error;
pub mod exports;
pub mod fingerprint;
pub mod framing;
pub mod io_loop;
pub mod key_events;
pub mod key_handler;
pub mod language_bar;
pub mod layout;
pub mod model;
pub mod registration;
pub mod rollback_guard;
pub mod row_text;
pub mod runtime;
pub mod schemes;
pub mod session;
pub mod shapes;
pub mod studio;
pub mod text;
pub mod tip;
pub mod ui_config;
