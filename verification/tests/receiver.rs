use key_tunnel::pressed::PressedKeys;
use key_tunnel::protocol::{Frame, KeyState, MessageType, ProtocolError, ReadError};
use key_tunnel::receiver::{
    event_bytes, key_datagrams, valid_event_rate, Incoming, InjectError, RateLimit,
    ReceiverSession, SessionError, Step, EV_KEY, EV_SYN, SYN_REPORT,
};

fn open(seq: u64) -> ReceiverSession {
    let (session, ready) =
        ReceiverSession::open(Ok(Frame::control(MessageType::Hello, seq, 5)), 3, 0, 77).unwrap();
    assert_eq!(ready.message_type, MessageType::Ready);
    assert_eq!(ready.sequence, seq);
    assert_eq!(ready.data, 1);
    assert_eq!(ready.timestamp_micros, 77);
    session
}

#[test]
fn handshake_requires_hello() {
    match ReceiverSession::open(Ok(Frame::control(MessageType::Ping, 1, 0)), 10, 0, 0) {
        Err(SessionError::NotHello) => {}
        other => panic!("{other:?}"),
    }
    match ReceiverSession::open(Err(ReadError::Protocol(ProtocolError::BadMagic)), 10, 0, 0) {
        Err(SessionError::BadHello(ReadError::Protocol(ProtocolError::BadMagic))) => {}
        other => panic!("{other:?}"),
    }
}

#[test]
fn key_events_map_to_values() {
    let mut s = open(1);
    match s.step(Incoming::Frame(Frame::key(2, 30, KeyState::Down, 0, 0)), 10, 0) {
        Step::Key { code: 30, value: 1 } => {}
        other => panic!("{other:?}"),
    }
    match s.step(Incoming::Frame(Frame::key(3, 30, KeyState::Repeat, 0, 0)), 10, 0) {
        Step::Key { code: 30, value: 2 } => {}
        other => panic!("{other:?}"),
    }
    match s.step(Incoming::Frame(Frame::key(4, 30, KeyState::Up, 0, 0)), 10, 0) {
        Step::Key { code: 30, value: 0 } => {}
        other => panic!("{other:?}"),
    }
    assert_eq!(s.sequence, 4);
}

#[test]
fn sequence_must_increase() {
    let mut s = open(10);
    match s.step(Incoming::Frame(Frame::control(MessageType::ReleaseAll, 10, 0)), 0, 0) {
        Step::Fail(SessionError::NonIncreasingSequence) => {}
        other => panic!("{other:?}"),
    }
    assert_eq!(s.sequence, 10);
    match s.step(Incoming::Frame(Frame::control(MessageType::ReleaseAll, 11, 0)), 0, 0) {
        Step::ReleaseAll => {}
        other => panic!("{other:?}"),
    }
}

#[test]
fn ping_is_echoed() {
    let mut s = open(1);
    let mut ping = Frame::control(MessageType::Ping, 9, 0);
    ping.data = 0xabcd;
    match s.step(Incoming::Frame(ping), 0, 55) {
        Step::Reply(pong) => {
            assert_eq!(pong.message_type, MessageType::Pong);
            assert_eq!(pong.sequence, 9);
            assert_eq!(pong.data, 0xabcd);
            assert_eq!(pong.timestamp_micros, 55);
        }
        other => panic!("{other:?}"),
    }
}

#[test]
fn session_endings() {
    let mut s = open(1);
    assert!(matches!(s.step(Incoming::EndOfInput, 0, 0), Step::Close));
    assert!(matches!(s.step(Incoming::Interrupted, 0, 0), Step::Close));
    assert!(matches!(
        s.step(Incoming::Frame(Frame::control(MessageType::Goodbye, 2, 0)), 0, 0),
        Step::Close
    ));
    assert!(matches!(
        s.step(Incoming::Frame(Frame::control(MessageType::Hello, 3, 0)), 0, 0),
        Step::Fail(SessionError::Unexpected(MessageType::Hello))
    ));
    assert!(matches!(
        s.step(
            Incoming::Broken(ReadError::Protocol(ProtocolError::BadChecksum)),
            0,
            0
        ),
        Step::Fail(SessionError::InvalidFrame(ReadError::Protocol(
            ProtocolError::BadChecksum
        )))
    ));
    let e = s.error_frame(8);
    assert_eq!(e.message_type, MessageType::Error);
    assert_eq!(e.sequence, 4);
    assert_eq!(e.data, 1);
    let wrap = ReceiverSession {
        sequence: u64::MAX,
        rate: RateLimit::new(10, 0),
    };
    assert_eq!(wrap.error_frame(0).sequence, 0);
}

#[test]
fn rate_limit_per_window() {
    let mut s = open(1);
    for i in 0..3u64 {
        assert!(matches!(
            s.step(
                Incoming::Frame(Frame::key(2 + i, 30, KeyState::Down, 0, 0)),
                500_000,
                0
            ),
            Step::Key { .. }
        ));
    }
    assert!(matches!(
        s.step(Incoming::Frame(Frame::key(9, 30, KeyState::Down, 0, 0)), 999_999, 0),
        Step::Fail(SessionError::RateLimitExceeded)
    ));
    let mut r = RateLimit::new(2, 100);
    assert!(r.allow(100));
    assert!(r.allow(200));
    assert!(!r.allow(1_000_099));
    assert!(r.allow(1_000_100));
    assert_eq!(r.count, 1);
    assert_eq!(r.started_micros, 1_000_100);
    let mut early = RateLimit::new(1, 5_000_000);
    assert!(early.allow(0));
    assert!(!early.allow(0));
}

#[test]
fn nth_event_in_window_allowed_up_to_limit() {
    let mut r = RateLimit::new(5, 1_000);
    for n in 1..=7u32 {
        let ok = r.allow(1_000 + u64::from(n) * 100_000);
        assert_eq!(ok, n <= 5);
        assert_eq!(r.count, n);
        assert_eq!(r.started_micros, 1_000);
    }
}

#[test]
fn event_rates() {
    assert!(!valid_event_rate(9));
    assert!(valid_event_rate(10));
    assert!(valid_event_rate(100_000));
    assert!(!valid_event_rate(100_001));
}

#[test]
fn input_event_layout() {
    let b = event_bytes(EV_KEY, 0x1234, -2);
    assert_eq!(&b[..16], &[0u8; 16]);
    assert_eq!(&b[16..], &[1, 0, 0x34, 0x12, 0xfe, 0xff, 0xff, 0xff]);
    let (key, syn) = key_datagrams(42, 1).unwrap();
    assert_eq!(key, event_bytes(EV_KEY, 42, 1));
    assert_eq!(syn, event_bytes(EV_SYN, SYN_REPORT, 0));
    assert_eq!(key_datagrams(0x300, 1), Err(InjectError::KeyCodeOutOfRange));
}

#[test]
fn pressed_keys_release_in_order() {
    let mut p = PressedKeys::new();
    p.record(50, 1);
    p.record(3, 1);
    p.record(700, 1);
    p.record(3, 2);
    p.record(50, 0);
    p.record(9, 2);
    assert_eq!(p.take_all(), vec![3, 700]);
    assert_eq!(p.take_all(), Vec::<u16>::new());
}

#[test]
fn sender_side_key_states() {
    let mut p = PressedKeys::new();
    assert_eq!(p.key_state(30, true), KeyState::Down);
    assert_eq!(p.key_state(30, true), KeyState::Repeat);
    assert_eq!(p.key_state(30, false), KeyState::Up);
    assert_eq!(p.key_state(30, true), KeyState::Down);
    p.clear();
    assert_eq!(p.key_state(30, true), KeyState::Down);
}

#[test]
fn session_end_sends_error_then_releases() {
    let s = open(41);
    let steps = s.finish(true, 12);
    assert_eq!(steps.len(), 2);
    match &steps[0] {
        Step::Reply(f) => {
            assert_eq!(f.message_type, MessageType::Error);
            assert_eq!(f.sequence, 42);
            assert_eq!(f.data, 1);
            assert_eq!(f.timestamp_micros, 12);
        }
        other => panic!("expected the ERROR frame, got {other:?}"),
    }
    assert!(matches!(steps[1], Step::ReleaseAll));
    let clean = s.finish(false, 12);
    assert_eq!(clean.len(), 1);
    assert!(matches!(clean[0], Step::ReleaseAll));
}
