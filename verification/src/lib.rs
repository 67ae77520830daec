//! Key Tunnel: a keyboard bridge that carries physical key events from a
//! Windows machine to a Linux desktop over one SSH session.
//!
//! The library holds the verified core: the fixed-width wire protocol, the
//! scan-code mapping, hotkey parsing, and the decision logic of the client and
//! the receiver.  Everything that touches the operating system lives in `app/`.

pub mod flags;
pub mod protocol;
pub mod mapping;
pub mod hotkey;
pub mod text;
pub mod args;
pub mod config;
pub mod status;
pub mod ui;
pub mod link;
pub mod pressed;
pub mod receiver;
