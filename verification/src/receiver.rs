//! The Linux side: what the receiver does with each frame that arrives, the
//! event-rate limit, and the `struct input_event` datagrams it hands to
//! `ydotoold`.

use vstd::prelude::*;
use crate::protocol::{
    Frame, KeyState, MessageType, ReadError, VERSION, MAX_LINUX_KEY_CODE, frame_valid,
};

verus! {

/// Linux `EV_SYN`.
pub const EV_SYN: u16 = 0;

/// Linux `EV_KEY`.
pub const EV_KEY: u16 = 1;

/// Linux `SYN_REPORT`.
pub const SYN_REPORT: u16 = 0;

/// Size of `struct input_event` on x86_64 Linux.
pub const INPUT_EVENT_LEN: usize = 24;

/// Events per second that a receiver lets through when its configuration
/// names no limit.
pub const DEFAULT_MAX_EVENTS_PER_SECOND: u32 = 2000;

/// One second in microseconds: the length of a rate-limit window.
pub const WINDOW_MICROS: u64 = 1_000_000;

/// Little-endian bytes of a `u16`.
pub open spec fn le16(v: u16) -> Seq<u8> {
    seq![v as u8, (v >> 8u16) as u8]
}

/// Little-endian bytes of a `u32`.
pub open spec fn le32(v: u32) -> Seq<u8> {
    seq![v as u8, (v >> 8u32) as u8, (v >> 16u32) as u8, (v >> 24u32) as u8]
}

/// A `struct input_event` as x86_64 Linux lays it out: a zero `timeval` (two
/// 8-byte fields), then type, code and value, little-endian.
pub open spec fn input_event_bytes(kind: u16, code: u16, value: i32) -> Seq<u8> {
    Seq::new(16, |i: int| 0u8) + le16(kind) + le16(code) + le32(value as u32)
}

/// The bytes of one `struct input_event` with a zero timestamp.
pub fn event_bytes(kind: u16, code: u16, value: i32) -> (b: [u8; INPUT_EVENT_LEN])
    ensures
        b@ == input_event_bytes(kind, code, value),
{
    let mut b = [0u8; INPUT_EVENT_LEN];
    b[16] = kind as u8;
    b[17] = (kind >> 8u16) as u8;
    b[18] = code as u8;
    b[19] = (code >> 8u16) as u8;
    let v = value as u32;
    b[20] = v as u8;
    b[21] = (v >> 8u32) as u8;
    b[22] = (v >> 16u32) as u8;
    b[23] = (v >> 24u32) as u8;
    assert(b@ =~= input_event_bytes(kind, code, value));
    b
}

/// Why a key could not be injected.
#[derive(Clone, Copy, Debug, PartialEq, Eq, Structural)]
pub enum InjectError {
    /// The key code is above `MAX_LINUX_KEY_CODE`.
    KeyCodeOutOfRange,
}

/// The two datagrams that inject one key event: the key event itself and the
/// `SYN_REPORT` that completes it. Key codes above `MAX_LINUX_KEY_CODE` are
/// refused.
pub fn key_datagrams(code: u16, value: i32) -> (r: Result<
    ([u8; INPUT_EVENT_LEN], [u8; INPUT_EVENT_LEN]),
    InjectError,
>)
    ensures
        code > MAX_LINUX_KEY_CODE ==> r == Err::<([u8; INPUT_EVENT_LEN], [u8; INPUT_EVENT_LEN]), InjectError>(
            InjectError::KeyCodeOutOfRange,
        ),
        code <= MAX_LINUX_KEY_CODE ==> (r matches Ok((key, syn)) && key@ == input_event_bytes(
            EV_KEY,
            code,
            value,
        ) && syn@ == input_event_bytes(EV_SYN, SYN_REPORT, 0)),
{
    if code > MAX_LINUX_KEY_CODE {
        return Err(InjectError::KeyCodeOutOfRange);
    }
    Ok((event_bytes(EV_KEY, code, value), event_bytes(EV_SYN, SYN_REPORT, 0)))
}

/// Whether a configured event rate is acceptable: 10 to 100000 per second.
pub fn valid_event_rate(max_events_per_second: u32) -> (b: bool)
    ensures
        b == (10 <= max_events_per_second <= 100_000),
{
    10 <= max_events_per_second && max_events_per_second <= 100_000
}

/// A limit of `limit` key events per one-second window.
#[derive(Clone, Copy, Debug, PartialEq, Eq, Structural)]
pub struct RateLimit {
    pub limit: u32,
    /// Events counted in the current window.
    pub count: u32,
    /// When the current window started, in microseconds of a monotonic clock.
    pub started_micros: u64,
}

/// Whether a window that started at `started` is over at `now` (a clock that
/// reads earlier than the start counts as no time elapsed).
pub open spec fn window_over(started: u64, now: u64) -> bool {
    now >= started && now - started >= WINDOW_MICROS
}

/// The limiter after one more event at `now`.
pub open spec fn rate_after(r: RateLimit, now: u64) -> RateLimit {
    let fresh = window_over(r.started_micros, now);
    let count = if fresh { 0u32 } else { r.count };
    RateLimit {
        limit: r.limit,
        count: if count == u32::MAX { u32::MAX } else { (count + 1) as u32 },
        started_micros: if fresh { now } else { r.started_micros },
    }
}

/// The limiter after one event at each of `times`, in order.
pub open spec fn rate_run(r: RateLimit, times: Seq<u64>) -> RateLimit
    decreases times.len(),
{
    if times.len() == 0 {
        r
    } else {
        rate_after(rate_run(r, times.drop_last()), times.last())
    }
}

/// Within one window, a fresh limiter lets the n-th event through exactly
/// when n is at most the limit: the count is the number of events so far and
/// the window does not move.
pub proof fn lemma_rate_limit_window(limit: u32, start: u64, times: Seq<u64>)
    requires
        times.len() < u32::MAX,
        forall|i: int| 0 <= i < times.len() ==> !window_over(start, #[trigger] times[i]),
    ensures
        rate_run(RateLimit { limit, count: 0, started_micros: start }, times) == (RateLimit {
            limit,
            count: times.len() as u32,
            started_micros: start,
        }),
        (rate_run(RateLimit { limit, count: 0, started_micros: start }, times).count <= limit)
            <==> times.len() <= limit,
    decreases times.len(),
{
    if times.len() > 0 {
        let init = times.drop_last();
        assert forall|i: int| 0 <= i < init.len() implies !window_over(start, #[trigger] init[i]) by {
            assert(init[i] == times[i]);
        }
        lemma_rate_limit_window(limit, start, init);
        assert(!window_over(start, times[times.len() - 1]));
    }
}

/// Events within one second of a window's start keep that window and add one
/// each to its count.
proof fn lemma_run_within(r: RateLimit, times: Seq<u64>)
    requires
        r.count + times.len() < u32::MAX,
        forall|i: int| 0 <= i < times.len() ==> !window_over(r.started_micros, #[trigger] times[i]),
    ensures
        rate_run(r, times) == (RateLimit {
            limit: r.limit,
            count: (r.count + times.len()) as u32,
            started_micros: r.started_micros,
        }),
    decreases times.len(),
{
    if times.len() > 0 {
        let init = times.drop_last();
        assert forall|i: int| 0 <= i < init.len() implies !window_over(
            r.started_micros,
            #[trigger] init[i],
        ) by {
            assert(init[i] == times[i]);
        }
        lemma_run_within(r, init);
        assert(!window_over(r.started_micros, times[times.len() - 1]));
    }
}

/// Running the limiter over `a` and then `b` is running it over both.
proof fn lemma_run_split(r: RateLimit, a: Seq<u64>, b: Seq<u64>)
    ensures
        rate_run(r, a + b) == rate_run(rate_run(r, a), b),
    decreases b.len(),
{
    if b.len() == 0 {
        assert(a + b =~= a);
    } else {
        assert((a + b).drop_last() =~= a + b.drop_last());
        lemma_run_split(r, a, b.drop_last());
    }
}

/// However busy or idle the limiter was before, an event that arrives once
/// its window is over opens a new window that starts at that event; within
/// the following second the n-th event, counting that one, is let through
/// exactly when n is at most the limit.
pub proof fn lemma_window_opens_at_event(r: RateLimit, times: Seq<u64>)
    requires
        0 < times.len() < u32::MAX,
        window_over(r.started_micros, times[0]),
        forall|i: int| 0 <= i < times.len() ==> !window_over(times[0], #[trigger] times[i]),
    ensures
        rate_after(r, times[0]).started_micros == times[0],
        rate_after(r, times[0]).count == 1,
        rate_run(r, times) == (RateLimit {
            limit: r.limit,
            count: times.len() as u32,
            started_micros: times[0],
        }),
        (rate_run(r, times).count <= r.limit) <==> times.len() <= r.limit,
{
    let first = seq![times[0]];
    let rest = times.drop_first();
    assert(times =~= first + rest);
    lemma_run_split(r, first, rest);
    assert(first.drop_last() =~= Seq::<u64>::empty());
    assert(rate_run(r, Seq::<u64>::empty()) == r);
    assert(first.last() == times[0]);
    let opened = rate_after(r, times[0]);
    assert(rate_run(r, first) == opened);
    assert forall|i: int| 0 <= i < rest.len() implies !window_over(
        opened.started_micros,
        #[trigger] rest[i],
    ) by {
        assert(rest[i] == times[i + 1]);
    }
    lemma_run_within(opened, rest);
}

impl RateLimit {
    /// A limiter whose first window starts at `now`.
    pub fn new(limit: u32, now: u64) -> (r: RateLimit)
        ensures
            r == (RateLimit { limit, count: 0, started_micros: now }),
    {
        RateLimit { limit, count: 0, started_micros: now }
    }

    /// Counts one event at `now`, opening a new window once a second has
    /// passed, and tells whether the event is within the limit.
    pub fn allow(&mut self, now: u64) -> (ok: bool)
        ensures
            *final(self) == rate_after(*old(self), now),
            ok == (final(self).count <= final(self).limit),
    {
        if now >= self.started_micros && now - self.started_micros >= WINDOW_MICROS {
            self.started_micros = now;
            self.count = 0;
        }
        self.count = self.count.saturating_add(1);
        self.count <= self.limit
    }
}

/// What the receiver got when it tried to read the next frame.
#[derive(Debug)]
pub enum Incoming {
    /// A frame that decoded.
    Frame(Frame),
    /// The stream ended cleanly between frames.
    EndOfInput,
    /// The stream failed or delivered bytes that are no frame.
    Broken(ReadError),
    /// A termination signal arrived.
    Interrupted,
}

/// Why a receiver session ended in failure.
#[derive(Debug)]
pub enum SessionError {
    /// The first frame could not be read.
    BadHello(ReadError),
    /// The first frame was not HELLO.
    NotHello,
    /// A later frame could not be read.
    InvalidFrame(ReadError),
    /// A frame's sequence number did not exceed the previous one.
    NonIncreasingSequence,
    /// More key events arrived within a second than the limit allows.
    RateLimitExceeded,
    /// A message the client must not send.
    Unexpected(MessageType),
}

/// What to do after a frame.
#[derive(Debug)]
pub enum Step {
    /// Inject a key event: value 0 releases, 1 presses, 2 repeats.
    Key { code: u16, value: i32 },
    /// Release every key held down.
    ReleaseAll,
    /// Send this frame back.
    Reply(Frame),
    /// End the session normally.
    Close,
    /// End the session with an error.
    Fail(SessionError),
}

/// The input-event value for a key state.
pub open spec fn key_value(s: KeyState) -> i32 {
    match s {
        KeyState::Up => 0,
        KeyState::Down => 1,
        _ => 2,
    }
}

/// The PONG that answers a PING: same sequence and data.
pub open spec fn pong_for(ping: Frame, timestamp: u64) -> Frame {
    Frame {
        message_type: MessageType::Pong,
        flags: 0,
        sequence: ping.sequence,
        key_code: 0,
        key_state: KeyState::Unset,
        timestamp_micros: timestamp,
        data: ping.data,
    }
}

/// The READY that answers a HELLO: same sequence, the protocol version as data.
pub open spec fn ready_for(hello: Frame, timestamp: u64) -> Frame {
    Frame {
        message_type: MessageType::Ready,
        flags: 0,
        sequence: hello.sequence,
        key_code: 0,
        key_state: KeyState::Unset,
        timestamp_micros: timestamp,
        data: VERSION as u32,
    }
}

/// The ERROR frame that ends a failed session whose last accepted sequence
/// number is `sequence`.
pub open spec fn error_for(sequence: u64, timestamp: u64) -> Frame {
    Frame {
        message_type: MessageType::Error,
        flags: 0,
        sequence: vstd::wrapping::u64_specs::wrapping_add(sequence, 1),
        key_code: 0,
        key_state: KeyState::Unset,
        timestamp_micros: timestamp,
        data: 1,
    }
}

/// The state of a receiver after the handshake.
#[derive(Debug)]
pub struct ReceiverSession {
    /// The sequence number of the last frame accepted.
    pub sequence: u64,
    pub rate: RateLimit,
}

impl ReceiverSession {
    /// Starts a session from the first frame: it must be a HELLO, which is
    /// answered with a READY.
    pub fn open(
        first: Result<Frame, ReadError>,
        max_events_per_second: u32,
        now: u64,
        timestamp: u64,
    ) -> (r: Result<(ReceiverSession, Frame), SessionError>)
        ensures
            match first {
                Err(e) => r matches Err(SessionError::BadHello(x)) && x == e,
                Ok(f) => if f.message_type != MessageType::Hello {
                    r matches Err(SessionError::NotHello)
                } else {
                    r matches Ok((s, ready)) && s.sequence == f.sequence && s.rate == RateLimit {
                        limit: max_events_per_second,
                        count: 0,
                        started_micros: now,
                    } && ready == ready_for(f, timestamp)
                },
            },
    {
        match first {
            Err(e) => Err(SessionError::BadHello(e)),
            Ok(hello) => {
                if hello.message_type != MessageType::Hello {
                    return Err(SessionError::NotHello);
                }
                let mut ready = Frame::control(MessageType::Ready, hello.sequence, timestamp);
                ready.data = VERSION as u32;
                let session = ReceiverSession {
                    sequence: hello.sequence,
                    rate: RateLimit::new(max_events_per_second, now),
                };
                Ok((session, ready))
            },
        }
    }

    /// Decides what to do with what was read next. `now` reads the monotonic
    /// clock of the rate limit; `timestamp` stamps a reply.
    pub fn step(&mut self, incoming: Incoming, now: u64, timestamp: u64) -> (r: Step)
        requires
            incoming matches Incoming::Frame(f) ==> frame_valid(f),
        ensures
            match incoming {
                Incoming::EndOfInput | Incoming::Interrupted => r matches Step::Close
                    && final(self).sequence == old(self).sequence && final(self).rate == old(
                    self).rate,
                Incoming::Broken(e) => (r matches Step::Fail(SessionError::InvalidFrame(x)) && x
                    == e) && final(self).sequence == old(self).sequence && final(self).rate == old(
                    self).rate,
                Incoming::Frame(f) => if f.sequence <= old(self).sequence {
                    r matches Step::Fail(SessionError::NonIncreasingSequence) && final(self).sequence
                        == old(self).sequence && final(self).rate == old(self).rate
                } else {
                    final(self).sequence == f.sequence && match f.message_type {
                        MessageType::KeyEvent => final(self).rate == rate_after(old(self).rate, now)
                            && if final(self).rate.count <= final(self).rate.limit {
                            r matches Step::Key { code, value } && code == f.key_code && value
                                == key_value(f.key_state)
                        } else {
                            r matches Step::Fail(SessionError::RateLimitExceeded)
                        },
                        MessageType::ReleaseAll => r matches Step::ReleaseAll && final(self).rate
                            == old(self).rate,
                        MessageType::Ping => (r matches Step::Reply(p) && p == pong_for(
                            f,
                            timestamp,
                        )) && final(self).rate == old(self).rate,
                        MessageType::Goodbye => r matches Step::Close && final(self).rate == old(
                            self).rate,
                        t => (r matches Step::Fail(SessionError::Unexpected(x)) && x == t) && final(
                            self).rate == old(self).rate,
                    }
                },
            },
    {
        match incoming {
            Incoming::EndOfInput | Incoming::Interrupted => Step::Close,
            Incoming::Broken(e) => Step::Fail(SessionError::InvalidFrame(e)),
            Incoming::Frame(frame) => {
                if frame.sequence <= self.sequence {
                    return Step::Fail(SessionError::NonIncreasingSequence);
                }
                self.sequence = frame.sequence;
                match frame.message_type {
                    MessageType::KeyEvent => {
                        if !self.rate.allow(now) {
                            return Step::Fail(SessionError::RateLimitExceeded);
                        }
                        let value = match frame.key_state {
                            KeyState::Down => 1,
                            KeyState::Repeat => 2,
                            KeyState::Up => 0,
                            KeyState::Unset => {
                                assert(false);
                                0
                            },
                        };
                        Step::Key { code: frame.key_code, value }
                    },
                    MessageType::ReleaseAll => Step::ReleaseAll,
                    MessageType::Ping => {
                        let mut pong = Frame::control(MessageType::Pong, frame.sequence, timestamp);
                        pong.data = frame.data;
                        Step::Reply(pong)
                    },
                    MessageType::Goodbye => Step::Close,
                    other => Step::Fail(SessionError::Unexpected(other)),
                }
            },
        }
    }

    /// The ERROR frame sent when a session fails: the next sequence number
    /// (wrapping) and error code 1.
    pub fn error_frame(&self, timestamp: u64) -> (f: Frame)
        ensures
            f == error_for(self.sequence, timestamp),
    {
        let mut error = Frame::control(MessageType::Error, self.sequence.wrapping_add(1), timestamp);
        error.data = 1;
        error
    }

    /// What the receiver does when the session ends, however it ended: a
    /// session that failed first sends its ERROR frame, and then every key
    /// still held is released.
    pub fn finish(&self, failed: bool, timestamp: u64) -> (steps: Vec<Step>)
        ensures
            failed ==> steps@.len() == 2 && (steps@[0] matches Step::Reply(f) && f == error_for(
                self.sequence,
                timestamp,
            )) && steps@[1] is ReleaseAll,
            !failed ==> steps@.len() == 1 && steps@[0] is ReleaseAll,
    {
        let mut steps: Vec<Step> = Vec::new();
        if failed {
            steps.push(Step::Reply(self.error_frame(timestamp)));
        }
        steps.push(Step::ReleaseAll);
        steps
    }
}

} // verus!
