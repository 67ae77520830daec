//! The client's status snapshot and how the client's events change it.

use vstd::prelude::*;
use crate::protocol::VERSION;

verus! {

/// The state of the link as the status file names it.
#[derive(Clone, Copy, Debug, PartialEq, Eq, Structural)]
pub enum LinkState {
    /// Connecting to the receiver.
    Connecting,
    /// SSH ready, keyboard on Windows.
    Local,
    /// Forwarding and suppression active.
    Remote,
    /// SSH, protocol or configuration failure; local keyboard restored.
    Error,
}

impl LinkState {
    /// The name written to the status file.
    pub fn name(self) -> (s: &'static str)
        ensures
            s@ == match self {
                LinkState::Connecting => "CONNECTING"@,
                LinkState::Local => "LOCAL"@,
                LinkState::Remote => "REMOTE"@,
                LinkState::Error => "ERROR"@,
            },
    {
        match self {
            LinkState::Connecting => "CONNECTING",
            LinkState::Local => "LOCAL",
            LinkState::Remote => "REMOTE",
            LinkState::Error => "ERROR",
        }
    }
}

/// What the status file holds.
#[derive(Clone, Debug)]
pub struct Snapshot {
    pub version: String,
    pub protocol_version: u8,
    pub state: LinkState,
    pub connected: bool,
    pub remote: bool,
    pub latency_ms: Option<u64>,
    pub dropped_events: u64,
    pub last_error: Option<String>,
    pub updated_unix_ms: u128,
}

/// A change that the user interface makes to the status.
#[derive(Clone, Copy, Debug, PartialEq, Eq, Structural)]
pub enum StatusChange {
    Unchanged,
    /// Back to the local keyboard.
    Local,
    /// Remote mode entered.
    Remote,
    /// Remote mode left because forwarding failed; the count of dropped
    /// events so far.
    FailedOpen { dropped_events: u64 },
}

/// Fields of a snapshot other than the ones named are as before.
pub open spec fn same_except_link(a: Snapshot, b: Snapshot) -> bool {
    &&& a.version == b.version
    &&& a.protocol_version == b.protocol_version
    &&& a.latency_ms == b.latency_ms
    &&& a.updated_unix_ms == b.updated_unix_ms
}

impl Snapshot {
    /// The status of a client that has just started.
    pub fn initial(version: String) -> (s: Snapshot)
        ensures
            s.version == version,
            s.protocol_version == VERSION,
            s.state == LinkState::Connecting,
            !s.connected,
            !s.remote,
            s.latency_ms is None,
            s.dropped_events == 0,
            s.last_error is None,
            s.updated_unix_ms == 0,
    {
        Snapshot {
            version,
            protocol_version: VERSION,
            state: LinkState::Connecting,
            connected: false,
            remote: false,
            latency_ms: None,
            dropped_events: 0,
            last_error: None,
            updated_unix_ms: 0,
        }
    }

    /// A connection attempt begins.
    pub fn connecting(&mut self)
        ensures
            final(self).state == LinkState::Connecting,
            !final(self).connected,
            !final(self).remote,
            final(self).dropped_events == old(self).dropped_events,
            final(self).last_error == old(self).last_error,
            same_except_link(*old(self), *final(self)),
    {
        self.state = LinkState::Connecting;
        self.connected = false;
        self.remote = false;
    }

    /// The handshake succeeded.
    pub fn link_up(&mut self)
        ensures
            final(self).state == LinkState::Local,
            final(self).connected,
            final(self).remote == old(self).remote,
            final(self).dropped_events == old(self).dropped_events,
            final(self).last_error is None,
            same_except_link(*old(self), *final(self)),
    {
        self.state = LinkState::Local;
        self.connected = true;
        self.last_error = None;
    }

    /// The link failed; the keyboard is local again.
    pub fn link_failed(&mut self, error: Option<String>)
        ensures
            final(self).state == LinkState::Error,
            !final(self).connected,
            !final(self).remote,
            final(self).dropped_events == old(self).dropped_events,
            final(self).last_error == error,
            same_except_link(*old(self), *final(self)),
    {
        self.state = LinkState::Error;
        self.connected = false;
        self.remote = false;
        self.last_error = error;
    }

    /// A PING was answered after `ms` milliseconds.
    pub fn record_latency(&mut self, ms: u64)
        ensures
            final(self).latency_ms == Some(ms),
            final(self).state == old(self).state,
            final(self).connected == old(self).connected,
            final(self).remote == old(self).remote,
            final(self).dropped_events == old(self).dropped_events,
            final(self).last_error == old(self).last_error,
            final(self).version == old(self).version,
            final(self).protocol_version == old(self).protocol_version,
            final(self).updated_unix_ms == old(self).updated_unix_ms,
    {
        self.latency_ms = Some(ms);
    }

    /// Applies a change of the user interface.
    pub fn apply(&mut self, change: StatusChange)
        ensures
            same_except_link(*old(self), *final(self)),
            final(self).last_error == old(self).last_error,
            match change {
                StatusChange::Unchanged => final(self).state == old(self).state
                    && final(self).connected == old(self).connected && final(self).remote == old(
                    self).remote && final(self).dropped_events == old(self).dropped_events,
                StatusChange::Local => final(self).state == LinkState::Local && !final(self).remote
                    && final(self).connected == old(self).connected && final(self).dropped_events
                    == old(self).dropped_events,
                StatusChange::Remote => final(self).state == LinkState::Remote && final(self).remote
                    && final(self).connected && final(self).dropped_events == old(
                    self).dropped_events,
                StatusChange::FailedOpen { dropped_events } => !final(self).remote
                    && final(self).dropped_events == dropped_events && final(self).connected == old(
                    self).connected && final(self).state == (if old(self).connected {
                    LinkState::Local
                } else {
                    old(self).state
                }),
            },
    {
        match change {
            StatusChange::Unchanged => {},
            StatusChange::Local => {
                self.state = LinkState::Local;
                self.remote = false;
            },
            StatusChange::Remote => {
                self.state = LinkState::Remote;
                self.remote = true;
                self.connected = true;
            },
            StatusChange::FailedOpen { dropped_events } => {
                self.remote = false;
                self.dropped_events = dropped_events;
                if self.connected {
                    self.state = LinkState::Local;
                }
            },
        }
    }
}

} // verus!
