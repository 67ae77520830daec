use key_tunnel::config::{
    default_alive_count, default_alive_interval, default_remote_command, default_true,
    parse_hotkeys, Config, ConfigError, HotkeysError,
};
use key_tunnel::flags::{EXTENDED_E0, EXTENDED_E1};
use key_tunnel::hotkey::{Hotkey, MOD_ALT, MOD_CONTROL, MOD_SHIFT};
use key_tunnel::link::{
    hello, next_backoff, ping_due, probe_frames, valid_ready, After, ClientLink, LinkFailure,
    Reply, RunAction, RunEvent, Supervisor, Wait,
};
use key_tunnel::protocol::{Frame, KeyState, MessageType};
use key_tunnel::status::{LinkState, Snapshot, StatusChange};
use key_tunnel::text::decimal;
use key_tunnel::ui::{
    after_queue, react, ForwardFlags, QueueResult, HeldModifiers, HookAction, HookEvent, HookState, ModeFlags, Outbound, RawKey, UiEvent,
    UiRequest, BEEP_ALERT, BEEP_LOCAL, BEEP_REMOTE, WM_KEYDOWN, WM_KEYUP, WM_SYSKEYDOWN,
};

fn config() -> Config {
    Config {
        server: "omarchy.lan".into(),
        user: "bridge".into(),
        ssh_key: "C:\\keys\\id".into(),
        known_hosts: "C:\\keys\\known_hosts".into(),
        toggle_hotkey: "Ctrl+Alt+Pause".into(),
        emergency_hotkey: "Ctrl+Shift+F11".into(),
        server_alive_interval_seconds: 15,
        server_alive_count_max: 3,
        notify_on_toggle: true,
        remote_command: "remote-input-receiver".into(),
    }
}

#[test]
fn config_defaults() {
    assert_eq!(default_alive_interval(), 15);
    assert_eq!(default_alive_count(), 3);
    assert!(default_true());
    assert_eq!(default_remote_command(), "remote-input-receiver");
}

#[test]
fn config_checks() {
    let c = config();
    assert_eq!(c.check(true, true), Ok(()));
    assert_eq!(c.check(false, true), Err(ConfigError::SshKeyMissing));
    assert_eq!(c.check(true, false), Err(ConfigError::KnownHostsMissing));
    let mut c = config();
    c.user = " \t".into();
    assert_eq!(c.check(false, false), Err(ConfigError::ServerAndUserRequired));
    let mut c = config();
    c.server = String::new();
    assert_eq!(c.check(true, true), Err(ConfigError::ServerAndUserRequired));
    let mut c = config();
    c.server_alive_interval_seconds = 301;
    assert_eq!(c.check(true, true), Err(ConfigError::AliveIntervalOutOfRange));
    c.server_alive_interval_seconds = 300;
    c.server_alive_count_max = 0;
    assert_eq!(c.check(true, true), Err(ConfigError::AliveCountOutOfRange));
    c.server_alive_count_max = 20;
    assert_eq!(c.check(true, true), Ok(()));
}

#[test]
fn ssh_command_line() {
    let mut c = config();
    c.server_alive_interval_seconds = 120;
    let args = c.ssh_args();
    let expected = vec![
        "-T",
        "-o",
        "BatchMode=yes",
        "-o",
        "StrictHostKeyChecking=yes",
        "-o",
        "Compression=no",
        "-o",
        "ClearAllForwardings=yes",
        "-o",
        "ForwardAgent=no",
        "-o",
        "ForwardX11=no",
        "-o",
        "ServerAliveInterval=120",
        "-o",
        "ServerAliveCountMax=3",
        "-o",
        "UserKnownHostsFile=C:\\keys\\known_hosts",
        "-i",
        "C:\\keys\\id",
        "bridge@omarchy.lan",
        "remote-input-receiver",
    ];
    assert_eq!(args, expected);
}

#[test]
fn decimal_text() {
    assert_eq!(decimal(0), "0");
    assert_eq!(decimal(7), "7");
    assert_eq!(decimal(10), "10");
    assert_eq!(decimal(4294967295), "4294967295");
}

#[test]
fn hotkeys_must_differ() {
    let (t, e) = parse_hotkeys("Ctrl+Alt+Pause", "Ctrl+Shift+F11").unwrap();
    assert_eq!(t, Hotkey { modifiers: MOD_CONTROL | MOD_ALT, vk: 0x13 });
    assert_eq!(e, Hotkey { modifiers: MOD_CONTROL | MOD_SHIFT, vk: 0x7a });
    assert!(matches!(
        parse_hotkeys("Ctrl+Alt+Pause", "alt + ctrl + pause"),
        Err(HotkeysError::Same)
    ));
    assert!(matches!(parse_hotkeys("Pause", "Ctrl+A"), Err(HotkeysError::Toggle(_))));
    assert!(matches!(parse_hotkeys("Ctrl+A", "Pause"), Err(HotkeysError::Emergency(_))));
}

#[test]
fn status_transitions() {
    let mut s = Snapshot::initial("0.1.0".into());
    assert_eq!(s.state, LinkState::Connecting);
    assert_eq!(s.protocol_version, 1);
    assert_eq!(LinkState::Connecting.name(), "CONNECTING");
    s.link_up();
    assert_eq!((s.state, s.connected, s.remote), (LinkState::Local, true, false));
    s.apply(StatusChange::Remote);
    assert_eq!((s.state, s.connected, s.remote), (LinkState::Remote, true, true));
    s.apply(StatusChange::FailedOpen { dropped_events: 4 });
    assert_eq!((s.state, s.remote, s.dropped_events), (LinkState::Local, false, 4));
    s.record_latency(12);
    assert_eq!(s.latency_ms, Some(12));
    s.link_failed(Some("ssh exited".into()));
    assert_eq!(s.state, LinkState::Error);
    assert_eq!(LinkState::Error.name(), "ERROR");
    assert_eq!(s.last_error.as_deref(), Some("ssh exited"));
    s.apply(StatusChange::FailedOpen { dropped_events: 5 });
    assert_eq!(s.state, LinkState::Error);
    s.connecting();
    assert_eq!(s.state.name(), "CONNECTING");
    s.apply(StatusChange::Local);
    assert_eq!(LinkState::Local.name(), "LOCAL");
    assert_eq!(LinkState::Remote.name(), "REMOTE");
}

#[test]
fn mode_switching() {
    let local = ModeFlags { active: false, was_remote: false };
    let r = react(local, true, true, 0, UiEvent::Toggle);
    assert_eq!(r.flags, ModeFlags { active: true, was_remote: true });
    assert_eq!(r.beep, Some(BEEP_REMOTE));
    assert_eq!(r.status, StatusChange::Remote);
    let back = react(r.flags, true, false, 0, UiEvent::Toggle);
    assert_eq!(back.flags, local);
    assert_eq!(back.send, Some(Outbound::ReleaseAll));
    assert_eq!(back.beep, None);
    let refused = react(local, false, true, 0, UiEvent::Toggle);
    assert_eq!(refused.flags, local);
    assert_eq!(refused.beep, Some(BEEP_ALERT));
    assert!(!refused.clear_pressed);
    let e = react(r.flags, true, true, 0, UiEvent::Emergency);
    assert_eq!(e.send, Some(Outbound::Emergency));
    assert!(!e.flags.active);
    let f = react(r.flags, true, true, 9, UiEvent::FailOpen);
    assert_eq!(f.status, StatusChange::FailedOpen { dropped_events: 9 });
    let lost = ModeFlags { active: false, was_remote: true };
    let t = react(lost, false, false, 2, UiEvent::Timer);
    assert_eq!(t.send, Some(Outbound::ReleaseAll));
    assert_eq!(t.flags, local);
    let idle = react(r.flags, true, true, 0, UiEvent::Timer);
    assert_eq!(idle.flags, r.flags);
    assert_eq!(idle.send, None);
    assert_eq!(BEEP_LOCAL, 0x40);
}

fn ev(message: u32, vk: u32, scan: u32, flags: u32) -> HookEvent {
    HookEvent {
        code: 0,
        message,
        vk,
        scan,
        flags,
        timestamp_micros: 5,
    }
}

#[test]
fn keyboard_hook_decisions() {
    let toggle = Hotkey { modifiers: MOD_CONTROL | MOD_ALT, vk: 0x13 };
    let emergency = Hotkey { modifiers: MOD_CONTROL | MOD_SHIFT, vk: 0x7a };
    let none = HeldModifiers { ctrl: false, shift: false, alt: false, win: false };
    let ctrl_alt = HeldModifiers { ctrl: true, shift: false, alt: true, win: false };
    let ctrl_shift = HeldModifiers { ctrl: true, shift: true, alt: false, win: false };
    let mut h = HookState::new();

    // Local mode: everything passes.
    assert_eq!(h.on_key(ev(WM_KEYDOWN, 0x41, 0x1e, 0), toggle, emergency, none, false), HookAction::Pass);
    // Toggle hotkey: posted once, repeats and the release are swallowed.
    assert_eq!(
        h.on_key(ev(WM_KEYDOWN, 0x13, 0x45, 0), toggle, emergency, ctrl_alt, false),
        HookAction::Post(UiRequest::Toggle)
    );
    assert_eq!(
        h.on_key(ev(WM_KEYDOWN, 0x13, 0x45, 0), toggle, emergency, ctrl_alt, true),
        HookAction::Swallow
    );
    assert_eq!(h.on_key(ev(WM_KEYUP, 0x13, 0x45, 0), toggle, emergency, none, true), HookAction::Swallow);
    // Remote mode: keys are forwarded with their state.
    assert_eq!(
        h.on_key(ev(WM_KEYDOWN, 0x41, 0x1e, 0), toggle, emergency, none, true),
        HookAction::Forward(RawKey { code: 30, state: KeyState::Down, flags: 0, timestamp_micros: 5 })
    );
    assert_eq!(
        h.on_key(ev(WM_SYSKEYDOWN, 0x41, 0x1e, 0), toggle, emergency, none, true),
        HookAction::Forward(RawKey { code: 30, state: KeyState::Repeat, flags: 0, timestamp_micros: 5 })
    );
    assert_eq!(
        h.on_key(ev(WM_KEYUP, 0x41, 0x1e, 0), toggle, emergency, none, true),
        HookAction::Forward(RawKey { code: 30, state: KeyState::Up, flags: 0, timestamp_micros: 5 })
    );
    assert_eq!(
        h.on_key(ev(WM_KEYDOWN, 0x0d, 0x1c, 1), toggle, emergency, none, true),
        HookAction::Forward(RawKey { code: 96, state: KeyState::Down, flags: EXTENDED_E0, timestamp_micros: 5 })
    );
    // Pause without the toggle modifiers is an E1 key.
    assert_eq!(
        h.on_key(ev(WM_KEYDOWN, 0x13, 0x45, 0), toggle, emergency, none, true),
        HookAction::Forward(RawKey { code: 119, state: KeyState::Down, flags: EXTENDED_E1, timestamp_micros: 5 })
    );
    // Unmapped keys are swallowed in remote mode.
    assert_eq!(h.on_key(ev(WM_KEYDOWN, 0xff, 0x00, 0), toggle, emergency, none, true), HookAction::Swallow);
    // Injected events and other messages pass.
    assert_eq!(h.on_key(ev(WM_KEYDOWN, 0x41, 0x1e, 0x10), toggle, emergency, none, true), HookAction::Pass);
    assert_eq!(h.on_key(ev(0x200, 0x41, 0x1e, 0), toggle, emergency, none, true), HookAction::Pass);
    let mut neg = ev(WM_KEYDOWN, 0x41, 0x1e, 0);
    neg.code = -1;
    assert_eq!(h.on_key(neg, toggle, emergency, none, true), HookAction::Pass);
    // Emergency hotkey: never forwarded.
    assert_eq!(
        h.on_key(ev(WM_KEYDOWN, 0x7a, 0x57, 0), toggle, emergency, ctrl_shift, true),
        HookAction::Post(UiRequest::Emergency)
    );
    assert_eq!(h.on_key(ev(WM_KEYUP, 0x7a, 0x57, 0), toggle, emergency, none, true), HookAction::Swallow);
    h.clear_pressed();
    assert_eq!(
        h.on_key(ev(WM_KEYDOWN, 0x41, 0x1e, 0), toggle, emergency, none, true),
        HookAction::Forward(RawKey { code: 30, state: KeyState::Down, flags: 0, timestamp_micros: 5 })
    );
}

#[test]
fn client_session_frames() {
    assert_eq!(hello(3), Frame::control(MessageType::Hello, 1, 3));
    let mut ready = Frame::control(MessageType::Ready, 1, 0);
    assert!(!valid_ready(&ready));
    ready.data = 1;
    assert!(valid_ready(&ready));
    ready.sequence = 2;
    assert!(!valid_ready(&ready));

    let mut link = ClientLink::new();
    assert!(link.on_active(true, 0).frames.is_empty());
    let p = link.on_active(false, 7);
    assert_eq!(p.frames, vec![Frame::control(MessageType::ReleaseAll, 2, 7)]);
    assert!(matches!(p.on_write_error, Some(LinkFailure::AutoReleaseFailed)));
    assert!(matches!(p.after, After::Continue) && !p.deactivate);
    let key = RawKey { code: 30, state: KeyState::Down, flags: 0, timestamp_micros: 9 };
    let p = link.on_request(Wait::Got(Outbound::Key(key)), false, 0);
    assert!(p.frames.is_empty());
    let p = link.on_request(Wait::Got(Outbound::Key(key)), true, 0);
    assert_eq!(p.frames, vec![Frame::key(3, 30, KeyState::Down, 0, 9)]);
    assert!(matches!(p.on_write_error, Some(LinkFailure::KeyWriteFailed)));
    let ping = link.ping(1000, 4);
    assert_eq!(ping.frames, vec![Frame::control(MessageType::Ping, 4, 4)]);
    assert!(matches!(ping.on_write_error, Some(LinkFailure::PingFailed)));
    assert!(matches!(
        link.on_reply(Ok(Frame::control(MessageType::Pong, 4, 0))),
        Reply::Latency { sent_micros: 1000 }
    ));
    assert!(matches!(
        link.on_reply(Ok(Frame::control(MessageType::Pong, 4, 0))),
        Reply::Ignore
    ));
    let mut err = Frame::control(MessageType::Error, 9, 0);
    err.data = 1;
    assert!(matches!(link.on_reply(Ok(err)), Reply::Reconnect(LinkFailure::ReceiverError(1))));
    assert!(matches!(
        link.on_reply(Ok(Frame::control(MessageType::Ready, 9, 0))),
        Reply::Reconnect(LinkFailure::UnexpectedFrame(MessageType::Ready))
    ));
    match link.on_reply(Err("closed".into())) {
        Reply::Reconnect(LinkFailure::StreamFailed(m)) => assert_eq!(m, "closed"),
        other => panic!("{other:?}"),
    }
    let p = link.on_request(Wait::Got(Outbound::Emergency), true, 1);
    assert_eq!(
        p.frames,
        vec![
            Frame::control(MessageType::ReleaseAll, 5, 1),
            Frame::control(MessageType::Goodbye, 6, 1)
        ]
    );
    assert!(matches!(p.after, After::Reconnect(LinkFailure::EmergencyRequested)));
    let p = link.on_request(Wait::Disconnected, true, 1);
    assert!(p.deactivate);
    assert!(matches!(p.after, After::Shutdown));
    assert_eq!(p.frames[1].sequence, 8);
    let p = link.on_request(Wait::Timeout, true, 1);
    assert!(p.frames.is_empty() && matches!(p.after, After::Continue));
    let p = link.on_request(Wait::Got(Outbound::ReleaseAll), true, 1);
    assert_eq!(p.frames, vec![Frame::control(MessageType::ReleaseAll, 9, 1)]);
    let mut wrap = ClientLink { next_sequence: u64::MAX, was_active: false, pending_ping: None };
    assert_eq!(wrap.take_sequence(), u64::MAX);
    assert_eq!(wrap.take_sequence(), 0);
}

#[test]
fn reconnect_backoff() {
    assert_eq!(next_backoff(1), 2);
    assert_eq!(next_backoff(8), 16);
    assert_eq!(next_backoff(16), 30);
    assert_eq!(next_backoff(30), 30);
}

#[test]
fn probe_script() {
    let plain = probe_frames(false, 1);
    assert_eq!(
        plain,
        vec![
            Frame::control(MessageType::ReleaseAll, 2, 1),
            Frame::control(MessageType::Goodbye, 3, 1)
        ]
    );
    let inject = probe_frames(true, 1);
    assert_eq!(inject.len(), 4);
    assert_eq!(inject[0], Frame::key(2, 42, KeyState::Down, 0, 1));
    assert_eq!(inject[1], Frame::key(3, 42, KeyState::Up, 0, 1));
    assert_eq!(inject[3], Frame::control(MessageType::Goodbye, 5, 1));
}

#[test]
fn forwarded_keys_reach_the_receiver_intact() {
    let toggle = Hotkey { modifiers: MOD_CONTROL | MOD_ALT, vk: 0x13 };
    let emergency = Hotkey { modifiers: MOD_CONTROL | MOD_SHIFT, vk: 0x7a };
    let none = HeldModifiers { ctrl: false, shift: false, alt: false, win: false };
    let mut h = HookState::new();
    let mut sequence = 2;
    for scan in 0..0x80u32 {
        for (flags, vk) in [(0u32, 0x41u32), (1, 0x41), (0, 0x13)] {
            for message in [WM_KEYDOWN, WM_KEYDOWN, WM_KEYUP] {
                if let HookAction::Forward(k) =
                    h.on_key(ev(message, vk, scan, flags), toggle, emergency, none, true)
                {
                    let frame = Frame::key(sequence, k.code, k.state, k.flags, k.timestamp_micros);
                    assert_eq!(frame.validate(), Ok(()));
                    assert_eq!(Frame::decode(&frame.encode()), Ok(frame));
                    sequence += 1;
                }
            }
        }
    }
    assert!(sequence > 200);
}

#[test]
fn full_queue_fails_open_at_once() {
    let flags = ForwardFlags {
        active: true,
        dropped_events: 4,
    };
    let r = after_queue(QueueResult::Full, flags);
    assert!(!r.flags.active);
    assert_eq!(r.flags.dropped_events, 5);
    assert!(r.fail_open);
    let wrap = after_queue(
        QueueResult::Full,
        ForwardFlags {
            active: true,
            dropped_events: u64::MAX,
        },
    );
    assert_eq!(wrap.flags.dropped_events, 0);
    for result in [QueueResult::Queued, QueueResult::Closed] {
        let r = after_queue(result, flags);
        assert_eq!(r.flags, flags);
        assert!(!r.fail_open);
    }
}

#[test]
fn session_frames_are_numbered_consecutively() {
    let key = RawKey {
        code: 30,
        state: KeyState::Down,
        flags: 0,
        timestamp_micros: 9,
    };
    let mut link = ClientLink::new();
    let mut sent: Vec<Frame> = Vec::new();
    sent.extend(link.on_active(true, 1).frames);
    sent.extend(link.on_request(Wait::Got(Outbound::Key(key)), true, 2).frames);
    sent.extend(link.on_request(Wait::Got(Outbound::Key(key)), false, 3).frames);
    sent.extend(link.ping(100, 4).frames);
    sent.extend(link.on_request(Wait::Timeout, true, 5).frames);
    sent.extend(link.on_active(false, 6).frames);
    sent.extend(link.on_request(Wait::Got(Outbound::ReleaseAll), false, 7).frames);
    sent.extend(link.on_request(Wait::Got(Outbound::Emergency), false, 8).frames);
    let sequences: Vec<u64> = sent.iter().map(|f| f.sequence).collect();
    assert_eq!(sequences, vec![2, 3, 4, 5, 6, 7]);
    assert_eq!(link.next_sequence, 8);
    assert_eq!(sent[0], Frame::key(2, 30, KeyState::Down, 0, 9));
    assert_eq!(sent[1].message_type, MessageType::Ping);
    assert_eq!(sent[2].message_type, MessageType::ReleaseAll);
    assert_eq!(sent[5].message_type, MessageType::Goodbye);
}

#[test]
fn keep_alive_every_five_seconds() {
    assert!(!ping_due(1_000, 1_000));
    assert!(!ping_due(1_000, 5_000_999));
    assert!(ping_due(1_000, 5_001_000));
    assert!(!ping_due(9_000_000, 1_000));
}

fn waits(actions: &[RunAction]) -> Vec<u64> {
    actions
        .iter()
        .filter_map(|a| match a {
            RunAction::Wait(secs) => Some(*secs),
            _ => None,
        })
        .collect()
}

#[test]
fn reconnection_schedule() {
    let (mut sup, first) = Supervisor::start();
    assert!(matches!(
        first.as_slice(),
        [RunAction::ShowConnecting, RunAction::Connect]
    ));
    let mut seen = Vec::new();
    for _ in 0..7 {
        let after_fail = sup.on_event(RunEvent::ConnectFailed("refused".into()));
        assert!(matches!(&after_fail[0], RunAction::FailOpen(m) if m == "refused"));
        seen.extend(waits(&after_fail));
        let again = sup.on_event(RunEvent::Waited(Wait::Timeout));
        assert!(matches!(
            again.as_slice(),
            [RunAction::ShowConnecting, RunAction::Connect]
        ));
    }
    assert_eq!(seen, vec![1, 2, 4, 8, 16, 30, 30]);
    let up = sup.on_event(RunEvent::Connected);
    assert!(matches!(up.as_slice(), [RunAction::LinkUp, RunAction::Drive]));
    assert_eq!(sup.backoff_secs, 1);
    let lost = sup.on_event(RunEvent::Lost("ssh exited".into()));
    assert!(matches!(
        lost.as_slice(),
        [RunAction::FailOpen(_), RunAction::EndSession, RunAction::Wait(1)]
    ));
    assert!(matches!(
        sup.on_event(RunEvent::Waited(Wait::Got(Outbound::Shutdown))).as_slice(),
        [RunAction::Stop]
    ));
    assert!(matches!(
        sup.on_event(RunEvent::Waited(Wait::Disconnected)).as_slice(),
        [RunAction::Stop]
    ));
    assert!(matches!(
        sup.on_event(RunEvent::Stopped).as_slice(),
        [RunAction::EndSession, RunAction::Stop]
    ));
}
