//! The Windows client's side of a session: sequence numbering, the
//! handshake, keep-alive pings, replies from the receiver, and the frames it
//! sends for each request of the user-interface thread.

use vstd::prelude::*;
use crate::mapping::lemma_codes_in_range;
use crate::protocol::{
    Frame, KeyState, MessageType, ProtocolError, VERSION, decoding, encoding, frame_valid,
    lemma_decode_encode,
};
use crate::ui::{HeldModifiers, HookAction, HookEvent, HookModel, Outbound, RawKey, hook_step};
use crate::hotkey::Hotkey;
use crate::flags::{EXTENDED_E0, EXTENDED_E1};

verus! {

/// Longest wait between reconnection attempts, in seconds.
pub const MAX_BACKOFF_SECS: u64 = 30;

/// Whether a frame is the READY that answers the client's HELLO: sequence 1
/// and the protocol version as data.
pub open spec fn is_valid_ready(f: Frame) -> bool {
    f.message_type == MessageType::Ready && f.sequence == 1 && f.data == VERSION as u32
}

/// Checks the receiver's answer to HELLO.
pub fn valid_ready(f: &Frame) -> (b: bool)
    ensures
        b == is_valid_ready(*f),
{
    f.message_type == MessageType::Ready && f.sequence == 1 && f.data == VERSION as u32
}

/// The HELLO that opens a session: sequence 1.
pub fn hello(timestamp: u64) -> (f: Frame)
    ensures
        f == Frame::spec_control(MessageType::Hello, 1, timestamp),
{
    Frame::control(MessageType::Hello, 1, timestamp)
}

/// Twice a wait, at most 30 seconds.
pub open spec fn doubled_wait(secs: u64) -> u64 {
    if 2 * secs < MAX_BACKOFF_SECS {
        (2 * secs) as u64
    } else {
        MAX_BACKOFF_SECS
    }
}

/// The wait before the next reconnection attempt: twice the last one, at
/// most 30 seconds.
pub fn next_backoff(secs: u64) -> (next: u64)
    ensures
        next == doubled_wait(secs),
{
    if secs < MAX_BACKOFF_SECS / 2 {
        secs * 2
    } else {
        MAX_BACKOFF_SECS
    }
}

/// Microseconds between keep-alive pings.
pub const PING_INTERVAL_MICROS: u64 = 5_000_000;

/// Whether a keep-alive ping is due: the interval has passed since the last
/// one (a clock that reads earlier than it counts as no time elapsed).
pub open spec fn is_ping_due(last_micros: u64, now_micros: u64) -> bool {
    now_micros >= last_micros && now_micros - last_micros >= PING_INTERVAL_MICROS
}

/// Tells whether the next keep-alive ping is due, by a monotonic clock.
pub fn ping_due(last_micros: u64, now_micros: u64) -> (b: bool)
    ensures
        b == is_ping_due(last_micros, now_micros),
{
    now_micros >= last_micros && now_micros - last_micros >= PING_INTERVAL_MICROS
}

/// Why the client gives up a session and reconnects.
#[derive(Clone, Debug)]
pub enum LinkFailure {
    /// Sending the release-all that follows leaving remote mode failed.
    AutoReleaseFailed,
    /// The receiver reported an error with this code.
    ReceiverError(u32),
    /// The receiver sent a frame it must not send.
    UnexpectedFrame(MessageType),
    /// Reading from the receiver failed (the reader's message).
    StreamFailed(String),
    /// Sending a PING failed.
    PingFailed,
    /// Sending a key failed.
    KeyWriteFailed,
    /// Sending a requested release-all failed.
    ReleaseAllFailed,
    /// The user asked for an emergency disconnect.
    EmergencyRequested,
}

/// What to do about a message from the receiver.
#[derive(Clone, Debug)]
pub enum Reply {
    /// The PING sent at this time was answered.
    Latency { sent_micros: u64 },
    /// Nothing to do.
    Ignore,
    /// Give up the session.
    Reconnect(LinkFailure),
}

/// What the transport thread got when it waited for a request.
#[derive(Clone, Copy, Debug, PartialEq, Eq, Structural)]
pub enum Wait {
    Got(Outbound),
    /// No request within the wait.
    Timeout,
    /// The user-interface thread is gone.
    Disconnected,
}

/// What comes after sending a plan's frames.
#[derive(Clone, Debug)]
pub enum After {
    Continue,
    Reconnect(LinkFailure),
    Shutdown,
}

/// Frames to send and what follows.
#[derive(Clone, Debug)]
pub struct Plan {
    /// Clear the shared active flag first.
    pub deactivate: bool,
    pub frames: Vec<Frame>,
    /// If writing a frame fails, write nothing more and give up the session
    /// for this reason; if `None`, write failures are ignored.
    pub on_write_error: Option<LinkFailure>,
    pub after: After,
}

/// The client's memory of one session.
#[derive(Clone, Copy, Debug)]
pub struct ClientLink {
    /// The sequence number the next frame gets.
    pub next_sequence: u64,
    /// Whether remote mode was on at the last check.
    pub was_active: bool,
    /// The sequence number of the PING awaiting its PONG, and when it was sent.
    pub pending_ping: Option<(u64, u64)>,
}

/// The sequence number after `s`, wrapping.
pub open spec fn seq_after(s: u64) -> u64 {
    vstd::wrapping::u64_specs::wrapping_add(s, 1)
}

/// One call that the transport thread makes on a session's `ClientLink`.
#[derive(Debug)]
pub enum LinkCall {
    /// `on_active`: remote mode is on or off.
    Activity { active: bool, timestamp: u64 },
    /// `ping`: the keep-alive interval has passed.
    Ping { now_micros: u64, timestamp: u64 },
    /// `on_reply`: the reader thread delivered a frame, or `None` for a read
    /// failure.
    Reply { frame: Option<Frame> },
    /// `on_request`: the wait for a request of the user-interface thread
    /// ended.
    Request { wait: Wait, active: bool, timestamp: u64 },
}

/// The frames that `on_request` sends, the first numbered `n`.
pub open spec fn request_frames(wait: Wait, active: bool, n: u64, timestamp: u64) -> Seq<Frame> {
    match wait {
        Wait::Timeout => seq![],
        Wait::Got(Outbound::Key(k)) => if active {
            seq![key_frame(k, n)]
        } else {
            seq![]
        },
        Wait::Got(Outbound::ReleaseAll) => seq![
            Frame::spec_control(MessageType::ReleaseAll, n, timestamp),
        ],
        _ => seq![
            Frame::spec_control(MessageType::ReleaseAll, n, timestamp),
            Frame::spec_control(MessageType::Goodbye, seq_after(n), timestamp),
        ],
    }
}

/// The sequence number after the `k` frames (at most two) of one call,
/// numbered from `n`.
pub open spec fn seq_advance(n: u64, k: nat) -> u64 {
    if k == 0 {
        n
    } else if k == 1 {
        seq_after(n)
    } else {
        seq_after(seq_after(n))
    }
}

/// The frames that one call sends.
pub open spec fn sent_by(l: ClientLink, c: LinkCall) -> Seq<Frame> {
    match c {
        LinkCall::Activity { active, timestamp } => if l.was_active && !active {
            seq![Frame::spec_control(MessageType::ReleaseAll, l.next_sequence, timestamp)]
        } else {
            seq![]
        },
        LinkCall::Ping { timestamp, .. } => seq![
            Frame::spec_control(MessageType::Ping, l.next_sequence, timestamp),
        ],
        LinkCall::Reply { .. } => seq![],
        LinkCall::Request { wait, active, timestamp } => request_frames(
            wait,
            active,
            l.next_sequence,
            timestamp,
        ),
    }
}

/// The session's memory after one call.
pub open spec fn link_after(l: ClientLink, c: LinkCall) -> ClientLink {
    let next = seq_advance(l.next_sequence, sent_by(l, c).len());
    match c {
        LinkCall::Activity { active, .. } => ClientLink {
            next_sequence: next,
            was_active: active,
            pending_ping: l.pending_ping,
        },
        LinkCall::Ping { now_micros, .. } => ClientLink {
            next_sequence: next,
            was_active: l.was_active,
            pending_ping: Some((l.next_sequence, now_micros)),
        },
        LinkCall::Reply { frame } => match frame {
            Some(f) => if f.message_type == MessageType::Pong {
                ClientLink { pending_ping: None, ..l }
            } else {
                l
            },
            None => l,
        },
        LinkCall::Request { .. } => ClientLink { next_sequence: next, ..l },
    }
}

/// The frame a reply carries, if it is one.
pub open spec fn reply_frame(reply: Result<Frame, String>) -> Option<Frame> {
    match reply {
        Ok(f) => Some(f),
        Err(_) => None,
    }
}

/// The session's memory after a run of calls.
pub open spec fn run_link(l: ClientLink, calls: Seq<LinkCall>) -> ClientLink
    decreases calls.len(),
{
    if calls.len() == 0 {
        l
    } else {
        link_after(run_link(l, calls.drop_last()), calls.last())
    }
}

/// Every frame a run of calls sends, in the order they are written.
pub open spec fn run_frames(l: ClientLink, calls: Seq<LinkCall>) -> Seq<Frame>
    decreases calls.len(),
{
    if calls.len() == 0 {
        seq![]
    } else {
        run_frames(l, calls.drop_last()) + sent_by(run_link(l, calls.drop_last()), calls.last())
    }
}

/// One call's frames are numbered on from the session's next sequence number,
/// which moves past them.
proof fn lemma_call_numbering(l: ClientLink, c: LinkCall)
    requires
        l.next_sequence + sent_by(l, c).len() <= u64::MAX,
    ensures
        sent_by(l, c).len() <= 2,
        link_after(l, c).next_sequence == l.next_sequence + sent_by(l, c).len(),
        forall|i: int| 0 <= i < sent_by(l, c).len() ==> #[trigger] sent_by(l, c)[i].sequence
            == l.next_sequence + i,
{
}

/// Over a whole session, the frames the client sends carry consecutive
/// sequence numbers in the order they are written, starting at the session's
/// next number, with no gap and no repeat (as long as the numbers do not wrap
/// past `u64::MAX`); the session's next number then follows the last of them.
/// Each call contributes exactly `sent_by`: in particular a key taken while
/// remote mode is on becomes `key_frame` with its number, and one taken while
/// it is off sends nothing.
pub proof fn lemma_session_sequences(l: ClientLink, calls: Seq<LinkCall>)
    requires
        l.next_sequence + run_frames(l, calls).len() <= u64::MAX,
    ensures
        run_link(l, calls).next_sequence == l.next_sequence + run_frames(l, calls).len(),
        forall|i: int| 0 <= i < run_frames(l, calls).len() ==> #[trigger] run_frames(
            l,
            calls,
        )[i].sequence == l.next_sequence + i,
    decreases calls.len(),
{
    if calls.len() > 0 {
        let init = calls.drop_last();
        let before = run_frames(l, init);
        let m = run_link(l, init);
        let step = sent_by(m, calls.last());
        assert(run_frames(l, calls) == before + step);
        lemma_session_sequences(l, init);
        lemma_call_numbering(m, calls.last());
        assert forall|i: int| 0 <= i < run_frames(l, calls).len() implies #[trigger] run_frames(
            l,
            calls,
        )[i].sequence == l.next_sequence + i by {
            if i < before.len() {
                assert(run_frames(l, calls)[i] == before[i]);
            } else {
                assert(run_frames(l, calls)[i] == step[i - before.len()]);
            }
        }
    }
}

impl ClientLink {
    /// A session whose handshake used sequence 1.
    pub fn new() -> (l: ClientLink)
        ensures
            l == (ClientLink { next_sequence: 2, was_active: false, pending_ping: None }),
    {
        ClientLink { next_sequence: 2, was_active: false, pending_ping: None }
    }

    /// Hands out the next sequence number.
    pub fn take_sequence(&mut self) -> (s: u64)
        ensures
            s == old(self).next_sequence,
            final(self).next_sequence == seq_after(old(self).next_sequence),
            final(self).was_active == old(self).was_active,
            final(self).pending_ping == old(self).pending_ping,
    {
        let value = self.next_sequence;
        self.next_sequence = self.next_sequence.wrapping_add(1);
        value
    }

    /// A control frame with the next sequence number.
    pub fn next_control(&mut self, kind: MessageType, timestamp: u64) -> (f: Frame)
        ensures
            f == Frame::spec_control(kind, old(self).next_sequence, timestamp),
            final(self).next_sequence == seq_after(old(self).next_sequence),
            final(self).was_active == old(self).was_active,
            final(self).pending_ping == old(self).pending_ping,
    {
        let s = self.take_sequence();
        Frame::control(kind, s, timestamp)
    }

    /// Notes whether remote mode is on; when it has just been left, a
    /// RELEASE_ALL must go out, and if writing it fails the session is given
    /// up.
    pub fn on_active(&mut self, is_active: bool, timestamp: u64) -> (p: Plan)
        ensures
            p.frames@ == sent_by(*old(self), LinkCall::Activity { active: is_active, timestamp }),
            *final(self) == link_after(*old(self), LinkCall::Activity { active: is_active, timestamp }),
            p.on_write_error matches Some(LinkFailure::AutoReleaseFailed),
            !p.deactivate,
            p.after is Continue,
            if old(self).was_active && !is_active {
                p.frames@ == seq![
                    Frame::spec_control(MessageType::ReleaseAll, old(self).next_sequence, timestamp),
                ]
            } else {
                p.frames@.len() == 0
            },
    {
        let mut frames = Vec::new();
        if self.was_active && !is_active {
            frames.push(self.next_control(MessageType::ReleaseAll, timestamp));
        }
        self.was_active = is_active;
        Plan {
            deactivate: false,
            frames,
            on_write_error: Some(LinkFailure::AutoReleaseFailed),
            after: After::Continue,
        }
    }

    /// A PING with the next sequence number, remembered as pending; if
    /// writing it fails the session is given up.
    pub fn ping(&mut self, now_micros: u64, timestamp: u64) -> (p: Plan)
        ensures
            p.frames@ == sent_by(*old(self), LinkCall::Ping { now_micros, timestamp }),
            *final(self) == link_after(*old(self), LinkCall::Ping { now_micros, timestamp }),
            p.frames@ == seq![
                Frame::spec_control(MessageType::Ping, old(self).next_sequence, timestamp),
            ],
            final(self).pending_ping == Some((old(self).next_sequence, now_micros)),
            p.on_write_error matches Some(LinkFailure::PingFailed),
            !p.deactivate,
            p.after is Continue,
    {
        let f = self.next_control(MessageType::Ping, timestamp);
        self.pending_ping = Some((f.sequence, now_micros));
        let mut frames = Vec::new();
        frames.push(f);
        proof {
            assert(frames@ =~= seq![f]);
        }
        Plan { deactivate: false, frames, on_write_error: Some(LinkFailure::PingFailed), after: After::Continue }
    }

    /// Handles what the reader thread delivered: a PONG answering the pending
    /// PING gives a latency (any PONG clears the pending PING); an ERROR, any
    /// other frame, or a read failure ends the session.
    pub fn on_reply(&mut self, reply: Result<Frame, String>) -> (r: Reply)
        ensures
            *final(self) == link_after(*old(self), LinkCall::Reply { frame: reply_frame(reply) }),
            final(self).next_sequence == old(self).next_sequence,
            final(self).was_active == old(self).was_active,
            match reply {
                Err(msg) => (r matches Reply::Reconnect(LinkFailure::StreamFailed(m)) && m@ == msg@)
                    && final(self).pending_ping == old(self).pending_ping,
                Ok(f) => if f.message_type == MessageType::Pong {
                    final(self).pending_ping is None && match old(self).pending_ping {
                        Some((s, sent)) => if s == f.sequence {
                            r matches Reply::Latency { sent_micros } && sent_micros == sent
                        } else {
                            r matches Reply::Ignore
                        },
                        None => r matches Reply::Ignore,
                    }
                } else if f.message_type == MessageType::Error {
                    (r matches Reply::Reconnect(LinkFailure::ReceiverError(d)) && d == f.data)
                        && final(self).pending_ping == old(self).pending_ping
                } else {
                    (r matches Reply::Reconnect(LinkFailure::UnexpectedFrame(t)) && t
                        == f.message_type) && final(self).pending_ping == old(self).pending_ping
                },
            },
    {
        match reply {
            Err(msg) => Reply::Reconnect(LinkFailure::StreamFailed(msg)),
            Ok(f) => {
                if f.message_type == MessageType::Pong {
                    let pending = self.pending_ping;
                    self.pending_ping = None;
                    match pending {
                        Some((sequence, sent)) => {
                            if sequence == f.sequence {
                                Reply::Latency { sent_micros: sent }
                            } else {
                                Reply::Ignore
                            }
                        },
                        None => Reply::Ignore,
                    }
                } else if f.message_type == MessageType::Error {
                    Reply::Reconnect(LinkFailure::ReceiverError(f.data))
                } else {
                    Reply::Reconnect(LinkFailure::UnexpectedFrame(f.message_type))
                }
            },
        }
    }

    /// The frames for one request of the user-interface thread. A key is sent
    /// only while remote mode is on; an emergency sends RELEASE_ALL and
    /// GOODBYE and reconnects; a shutdown (or a vanished user interface)
    /// clears remote mode, sends RELEASE_ALL and GOODBYE and stops.
    pub fn on_request(&mut self, wait: Wait, active: bool, timestamp: u64) -> (p: Plan)
        ensures
            p.frames@ == sent_by(*old(self), LinkCall::Request { wait, active, timestamp }),
            *final(self) == link_after(*old(self), LinkCall::Request { wait, active, timestamp }),
            final(self).was_active == old(self).was_active,
            final(self).pending_ping == old(self).pending_ping,
            ({
                let n = old(self).next_sequence;
                match wait {
                    Wait::Timeout => p.frames@.len() == 0 && !p.deactivate && p.after is Continue
                        && final(self).next_sequence == n,
                    Wait::Got(Outbound::Key(k)) => if active {
                        p.frames@ == seq![key_frame(k, n)] && (p.on_write_error matches Some(LinkFailure::KeyWriteFailed))
                            && !p.deactivate && p.after is Continue && final(self).next_sequence
                            == seq_after(n)
                    } else {
                        p.frames@.len() == 0 && !p.deactivate && p.after is Continue
                            && final(self).next_sequence == n
                    },
                    Wait::Got(Outbound::ReleaseAll) => p.frames@ == seq![
                        Frame::spec_control(MessageType::ReleaseAll, n, timestamp),
                    ] && (p.on_write_error matches Some(LinkFailure::ReleaseAllFailed))
                        && !p.deactivate && p.after is Continue && final(self).next_sequence
                        == seq_after(n),
                    Wait::Got(Outbound::Emergency) => p.frames@ == seq![
                        Frame::spec_control(MessageType::ReleaseAll, n, timestamp),
                        Frame::spec_control(MessageType::Goodbye, seq_after(n), timestamp),
                    ] && p.on_write_error is None && !p.deactivate && (p.after matches After::Reconnect(
                        LinkFailure::EmergencyRequested,
                    )) && final(self).next_sequence == seq_after(seq_after(n)),
                    Wait::Got(Outbound::Shutdown) | Wait::Disconnected => p.frames@ == seq![
                        Frame::spec_control(MessageType::ReleaseAll, n, timestamp),
                        Frame::spec_control(MessageType::Goodbye, seq_after(n), timestamp),
                    ] && p.on_write_error is None && p.deactivate && p.after is Shutdown
                        && final(self).next_sequence == seq_after(seq_after(n)),
                }
            }),
    {
        match wait {
            Wait::Timeout => Plan {
                deactivate: false,
                frames: Vec::new(),
                on_write_error: None,
                after: After::Continue,
            },
            Wait::Got(Outbound::Key(key)) => {
                if !active {
                    return Plan {
                        deactivate: false,
                        frames: Vec::new(),
                        on_write_error: None,
                        after: After::Continue,
                    };
                }
                let sequence = self.take_sequence();
                let frame = Frame::key(
                    sequence,
                    key.code,
                    key.state,
                    key.flags,
                    key.timestamp_micros,
                );
                let mut frames = Vec::new();
                frames.push(frame);
                Plan {
                    deactivate: false,
                    frames,
                    on_write_error: Some(LinkFailure::KeyWriteFailed),
                    after: After::Continue,
                }
            },
            Wait::Got(Outbound::ReleaseAll) => {
                let mut frames = Vec::new();
                frames.push(self.next_control(MessageType::ReleaseAll, timestamp));
                Plan {
                    deactivate: false,
                    frames,
                    on_write_error: Some(LinkFailure::ReleaseAllFailed),
                    after: After::Continue,
                }
            },
            Wait::Got(Outbound::Emergency) => {
                let mut frames = Vec::new();
                frames.push(self.next_control(MessageType::ReleaseAll, timestamp));
                frames.push(self.next_control(MessageType::Goodbye, timestamp));
                Plan {
                    deactivate: false,
                    frames,
                    on_write_error: None,
                    after: After::Reconnect(LinkFailure::EmergencyRequested),
                }
            },
            Wait::Got(Outbound::Shutdown) | Wait::Disconnected => {
                let mut frames = Vec::new();
                frames.push(self.next_control(MessageType::ReleaseAll, timestamp));
                frames.push(self.next_control(MessageType::Goodbye, timestamp));
                Plan { deactivate: true, frames, on_write_error: None, after: After::Shutdown }
            },
        }
    }
}

/// The frame that carries a forwarded key.
pub open spec fn key_frame(k: RawKey, sequence: u64) -> Frame {
    Frame {
        message_type: MessageType::KeyEvent,
        flags: k.flags,
        sequence,
        key_code: k.code,
        key_state: k.state,
        timestamp_micros: k.timestamp_micros,
        data: 0,
    }
}

/// Every key the hook forwards makes a frame that the receiver's validation
/// accepts (a mapped key code, a real key state, only the E0/E1 flags), so
/// the receiver decodes its encoding back to the same frame.
pub proof fn lemma_forwarded_keys_valid(
    m: HookModel,
    e: HookEvent,
    toggle: Hotkey,
    emergency: Hotkey,
    held: HeldModifiers,
    active: bool,
    sequence: u64,
)
    ensures
        hook_step(m, e, toggle, emergency, held, active).1 matches HookAction::Forward(k) ==> {
            &&& frame_valid(key_frame(k, sequence))
            &&& decoding(encoding(key_frame(k, sequence))) == Ok::<Frame, ProtocolError>(
                key_frame(k, sequence),
            )
        },
{
    lemma_codes_in_range(e.scan, e.flags & crate::ui::LLKHF_EXTENDED != 0);
    assert(EXTENDED_E0 <= 3 && EXTENDED_E1 <= 3);
    if let HookAction::Forward(k) = hook_step(m, e, toggle, emergency, held, active).1 {
        lemma_decode_encode(key_frame(k, sequence));
    }
}

/// Linux code of Left Shift: the probe's test key, observable by `ydotoold`
/// without typing text or changing a lock state.
pub const PROBE_TEST_KEY: u16 = 42;

/// A key-event frame with no flags.
pub open spec fn spec_key(sequence: u64, code: u16, state: KeyState, timestamp: u64) -> Frame {
    Frame {
        message_type: MessageType::KeyEvent,
        flags: 0,
        sequence,
        key_code: code,
        key_state: state,
        timestamp_micros: timestamp,
        data: 0,
    }
}

/// What the probe sends after READY: optionally Left Shift down and up, then
/// RELEASE_ALL and GOODBYE, numbered from 2.
pub open spec fn probe_script(inject_test_key: bool, timestamp: u64) -> Seq<Frame> {
    if inject_test_key {
        seq![
            spec_key(2, PROBE_TEST_KEY, KeyState::Down, timestamp),
            spec_key(3, PROBE_TEST_KEY, KeyState::Up, timestamp),
            Frame::spec_control(MessageType::ReleaseAll, 4, timestamp),
            Frame::spec_control(MessageType::Goodbye, 5, timestamp),
        ]
    } else {
        seq![
            Frame::spec_control(MessageType::ReleaseAll, 2, timestamp),
            Frame::spec_control(MessageType::Goodbye, 3, timestamp),
        ]
    }
}

/// The frames the probe sends after a valid READY.
pub fn probe_frames(inject_test_key: bool, timestamp: u64) -> (frames: Vec<Frame>)
    ensures
        frames@ == probe_script(inject_test_key, timestamp),
{
    let mut frames: Vec<Frame> = Vec::new();
    let mut sequence: u64 = 2;
    if inject_test_key {
        frames.push(Frame::key(sequence, PROBE_TEST_KEY, KeyState::Down, 0, timestamp));
        sequence = sequence + 1;
        frames.push(Frame::key(sequence, PROBE_TEST_KEY, KeyState::Up, 0, timestamp));
        sequence = sequence + 1;
    }
    frames.push(Frame::control(MessageType::ReleaseAll, sequence, timestamp));
    sequence = sequence + 1;
    frames.push(Frame::control(MessageType::Goodbye, sequence, timestamp));
    assert(frames@ =~= probe_script(inject_test_key, timestamp));
    frames
}

/// What the transport thread learns while it keeps a session to the
/// receiver.
#[derive(Debug)]
pub enum RunEvent {
    /// The connection and the handshake succeeded.
    Connected,
    /// Connecting failed, for this reason.
    ConnectFailed(String),
    /// The session ended and must be established again, for this reason.
    Lost(String),
    /// The session ended because the client is shutting down.
    Stopped,
    /// The wait before the next attempt ended.
    Waited(Wait),
}

/// What the transport thread does next.
#[derive(Debug)]
pub enum RunAction {
    /// Show CONNECTING: not connected, not remote.
    ShowConnecting,
    /// Start `ssh` and perform the handshake.
    Connect,
    /// Mark the link connected and show LOCAL with no error.
    LinkUp,
    /// Serve the session.
    Drive,
    /// Fail open: leave remote mode, mark the link down and show ERROR with
    /// this reason.
    FailOpen(String),
    /// End the `ssh` process of the session.
    EndSession,
    /// Wait this many seconds for a request of the user-interface thread.
    Wait(u64),
    /// Stop the transport thread.
    Stop,
}

/// The transport thread's memory between sessions: the wait that follows
/// the next failure, in seconds.
#[derive(Clone, Copy, Debug, PartialEq, Eq, Structural)]
pub struct Supervisor {
    pub backoff_secs: u64,
}

/// The actions that follow an event.
pub open spec fn run_actions(s: Supervisor, e: RunEvent) -> Seq<RunAction> {
    match e {
        RunEvent::Connected => seq![RunAction::LinkUp, RunAction::Drive],
        RunEvent::ConnectFailed(why) => seq![
            RunAction::FailOpen(why),
            RunAction::Wait(s.backoff_secs),
        ],
        RunEvent::Lost(why) => seq![
            RunAction::FailOpen(why),
            RunAction::EndSession,
            RunAction::Wait(s.backoff_secs),
        ],
        RunEvent::Stopped => seq![RunAction::EndSession, RunAction::Stop],
        RunEvent::Waited(w) => match w {
            Wait::Got(Outbound::Shutdown) | Wait::Disconnected => seq![RunAction::Stop],
            _ => seq![RunAction::ShowConnecting, RunAction::Connect],
        },
    }
}

/// The memory after an event: a successful connect starts the waits again
/// from one second, a wait that leads to another attempt doubles the next
/// one (at most 30 seconds), and nothing else changes it.
pub open spec fn run_after(s: Supervisor, e: RunEvent) -> Supervisor {
    match e {
        RunEvent::Connected => Supervisor { backoff_secs: 1 },
        RunEvent::Waited(w) => match w {
            Wait::Got(Outbound::Shutdown) | Wait::Disconnected => s,
            _ => Supervisor { backoff_secs: doubled_wait(s.backoff_secs) },
        },
        _ => s,
    }
}

impl Supervisor {
    /// The first attempt: show CONNECTING and connect, with a wait of one
    /// second after a failure.
    pub fn start() -> (r: (Supervisor, Vec<RunAction>))
        ensures
            r.0 == (Supervisor { backoff_secs: 1 }),
            r.1@ == seq![RunAction::ShowConnecting, RunAction::Connect],
    {
        let mut actions = Vec::new();
        actions.push(RunAction::ShowConnecting);
        actions.push(RunAction::Connect);
        (Supervisor { backoff_secs: 1 }, actions)
    }

    /// Decides what follows an event: after a failed connect or a lost
    /// session the client fails open and waits; after the wait it shows
    /// CONNECTING and tries again, unless it is shutting down.
    pub fn on_event(&mut self, e: RunEvent) -> (actions: Vec<RunAction>)
        ensures
            actions@ == run_actions(*old(self), e),
            *final(self) == run_after(*old(self), e),
    {
        let mut actions = Vec::new();
        match e {
            RunEvent::Connected => {
                self.backoff_secs = 1;
                actions.push(RunAction::LinkUp);
                actions.push(RunAction::Drive);
            },
            RunEvent::ConnectFailed(why) => {
                actions.push(RunAction::FailOpen(why));
                actions.push(RunAction::Wait(self.backoff_secs));
            },
            RunEvent::Lost(why) => {
                actions.push(RunAction::FailOpen(why));
                actions.push(RunAction::EndSession);
                actions.push(RunAction::Wait(self.backoff_secs));
            },
            RunEvent::Stopped => {
                actions.push(RunAction::EndSession);
                actions.push(RunAction::Stop);
            },
            RunEvent::Waited(w) => match w {
                Wait::Got(Outbound::Shutdown) | Wait::Disconnected => {
                    actions.push(RunAction::Stop);
                },
                _ => {
                    self.backoff_secs = next_backoff(self.backoff_secs);
                    actions.push(RunAction::ShowConnecting);
                    actions.push(RunAction::Connect);
                },
            },
        }
        actions
    }
}

/// The wait after the k-th failed attempt in a row (counted from zero):
/// 1, 2, 4, 8 and 16 seconds, then 30.
pub open spec fn retry_wait(k: nat) -> u64 {
    if k == 0 {
        1
    } else if k == 1 {
        2
    } else if k == 2 {
        4
    } else if k == 3 {
        8
    } else if k == 4 {
        16
    } else {
        30
    }
}

/// The memory after `k` rounds of a failed connect and a wait that ran out.
pub open spec fn retry_rounds(s: Supervisor, k: nat, why: String) -> Supervisor
    decreases k,
{
    if k == 0 {
        s
    } else {
        let t = retry_rounds(s, (k - 1) as nat, why);
        run_after(run_after(t, RunEvent::ConnectFailed(why)), RunEvent::Waited(Wait::Timeout))
    }
}

/// After a start or a successful connect, consecutive failed attempts are
/// each followed by failing open and then a wait of 1, 2, 4, 8, 16, then 30
/// seconds, and the next successful connect starts the waits again from one
/// second.
pub proof fn lemma_retry_waits(s: Supervisor, k: nat, why: String)
    requires
        s.backoff_secs == 1,
    ensures
        retry_rounds(s, k, why).backoff_secs == retry_wait(k),
        run_actions(retry_rounds(s, k, why), RunEvent::ConnectFailed(why)) == seq![
            RunAction::FailOpen(why),
            RunAction::Wait(retry_wait(k)),
        ],
        run_after(retry_rounds(s, k, why), RunEvent::Connected).backoff_secs == 1,
    decreases k,
{
    if k > 0 {
        lemma_retry_waits(s, (k - 1) as nat, why);
    }
}

} // verus!
