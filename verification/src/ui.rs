//! The Windows client's user-interface thread: the low-level keyboard hook,
//! the hotkeys, and the switch between local and remote mode.

use vstd::prelude::*;
use crate::flags::{EXTENDED_E0, EXTENDED_E1};
use crate::hotkey::{Hotkey, MOD_ALT, MOD_CONTROL, MOD_SHIFT, MOD_WIN};
use crate::mapping::{linux_code, pause, pause_code, to_linux};
use crate::pressed::PressedKeys;
use crate::protocol::KeyState;
use crate::status::StatusChange;

verus! {

/// Win32 `WM_KEYDOWN`.
pub const WM_KEYDOWN: u32 = 0x0100;

/// Win32 `WM_KEYUP`.
pub const WM_KEYUP: u32 = 0x0101;

/// Win32 `WM_SYSKEYDOWN`.
pub const WM_SYSKEYDOWN: u32 = 0x0104;

/// Win32 `WM_SYSKEYUP`.
pub const WM_SYSKEYUP: u32 = 0x0105;

/// `KBDLLHOOKSTRUCT.flags` bit of an extended (E0) key.
pub const LLKHF_EXTENDED: u32 = 0x01;

/// `KBDLLHOOKSTRUCT.flags` bit of an injected event.
pub const LLKHF_INJECTED: u32 = 0x10;

/// The virtual-key code of Pause, which arrives with the E1 prefix.
pub const VK_PAUSE: u32 = 0x13;

/// Beep of `MB_ICONASTERISK`: back to local mode.
pub const BEEP_LOCAL: u32 = 0x40;

/// Beep of `MB_ICONEXCLAMATION`: remote mode entered.
pub const BEEP_REMOTE: u32 = 0x30;

/// Beep of `MB_ICONHAND`: refusal, emergency or failure.
pub const BEEP_ALERT: u32 = 0x10;

/// A key event captured for the receiver.
#[derive(Clone, Copy, Debug, PartialEq, Eq, Structural)]
pub struct RawKey {
    pub code: u16,
    pub state: KeyState,
    pub flags: u16,
    pub timestamp_micros: u64,
}

/// A request from the user-interface thread to the transport thread.
#[derive(Clone, Copy, Debug, PartialEq, Eq, Structural)]
pub enum Outbound {
    Key(RawKey),
    ReleaseAll,
    Emergency,
    Shutdown,
}

/// The mode flags that the user-interface thread keeps.
#[derive(Clone, Copy, Debug, PartialEq, Eq, Structural)]
pub struct ModeFlags {
    /// Keys are suppressed locally and forwarded.
    pub active: bool,
    /// Remote mode was entered and has not been left through the interface.
    pub was_remote: bool,
}

/// What happened on the user-interface thread.
#[derive(Clone, Copy, Debug, PartialEq, Eq, Structural)]
pub enum UiEvent {
    /// The toggle hotkey.
    Toggle,
    /// The emergency hotkey.
    Emergency,
    /// The queue to the transport overflowed.
    FailOpen,
    /// The periodic timer.
    Timer,
}

/// What the user-interface thread does about an event.
#[derive(Clone, Copy, Debug, PartialEq, Eq, Structural)]
pub struct UiReaction {
    pub flags: ModeFlags,
    /// Forget which keys are held.
    pub clear_pressed: bool,
    /// Request for the transport.
    pub send: Option<Outbound>,
    pub status: StatusChange,
    /// Beep to play.
    pub beep: Option<u32>,
}

/// Leaving remote mode because forwarding failed.
pub open spec fn failed_open(notify: bool, dropped_events: u64) -> UiReaction {
    UiReaction {
        flags: ModeFlags { active: false, was_remote: false },
        clear_pressed: true,
        send: Some(Outbound::ReleaseAll),
        status: StatusChange::FailedOpen { dropped_events },
        beep: if notify { Some(BEEP_ALERT) } else { None },
    }
}

/// What `react` answers.
pub open spec fn reaction(
    flags: ModeFlags,
    connected: bool,
    notify: bool,
    dropped_events: u64,
    event: UiEvent,
) -> UiReaction {
    match event {
        UiEvent::Toggle => if flags.active {
            UiReaction {
                flags: ModeFlags { active: false, was_remote: false },
                clear_pressed: true,
                send: Some(Outbound::ReleaseAll),
                status: StatusChange::Local,
                beep: if notify { Some(BEEP_LOCAL) } else { None },
            }
        } else if connected {
            UiReaction {
                flags: ModeFlags { active: true, was_remote: true },
                clear_pressed: true,
                send: None,
                status: StatusChange::Remote,
                beep: if notify { Some(BEEP_REMOTE) } else { None },
            }
        } else {
            UiReaction {
                flags,
                clear_pressed: false,
                send: None,
                status: StatusChange::Unchanged,
                beep: if notify { Some(BEEP_ALERT) } else { None },
            }
        },
        UiEvent::Emergency => UiReaction {
            flags: ModeFlags { active: false, was_remote: false },
            clear_pressed: true,
            send: Some(Outbound::Emergency),
            status: StatusChange::Local,
            beep: if notify { Some(BEEP_ALERT) } else { None },
        },
        UiEvent::FailOpen => failed_open(notify, dropped_events),
        UiEvent::Timer => if flags.was_remote && !flags.active {
            failed_open(notify, dropped_events)
        } else {
            UiReaction {
                flags,
                clear_pressed: false,
                send: None,
                status: StatusChange::Unchanged,
                beep: None,
            }
        },
    }
}

/// Decides what the user-interface thread does: the toggle hotkey switches
/// between local and remote mode (remote only while connected), the
/// emergency hotkey always returns to local mode and drops the session, and a
/// failure — or a timer tick that finds remote mode left without the
/// interface — fails open.
pub fn react(
    flags: ModeFlags,
    connected: bool,
    notify: bool,
    dropped_events: u64,
    event: UiEvent,
) -> (r: UiReaction)
    ensures
        r == reaction(flags, connected, notify, dropped_events, event),
{
    let beep_if = |kind: u32| -> (b: Option<u32>)
        ensures
            b == (if notify { Some(kind) } else { None }),
        {
            if notify {
                Some(kind)
            } else {
                None
            }
        };
    match event {
        UiEvent::Toggle => {
            if flags.active {
                UiReaction {
                    flags: ModeFlags { active: false, was_remote: false },
                    clear_pressed: true,
                    send: Some(Outbound::ReleaseAll),
                    status: StatusChange::Local,
                    beep: beep_if(BEEP_LOCAL),
                }
            } else if connected {
                UiReaction {
                    flags: ModeFlags { active: true, was_remote: true },
                    clear_pressed: true,
                    send: None,
                    status: StatusChange::Remote,
                    beep: beep_if(BEEP_REMOTE),
                }
            } else {
                UiReaction {
                    flags,
                    clear_pressed: false,
                    send: None,
                    status: StatusChange::Unchanged,
                    beep: beep_if(BEEP_ALERT),
                }
            }
        },
        UiEvent::Emergency => UiReaction {
            flags: ModeFlags { active: false, was_remote: false },
            clear_pressed: true,
            send: Some(Outbound::Emergency),
            status: StatusChange::Local,
            beep: beep_if(BEEP_ALERT),
        },
        UiEvent::FailOpen => UiReaction {
            flags: ModeFlags { active: false, was_remote: false },
            clear_pressed: true,
            send: Some(Outbound::ReleaseAll),
            status: StatusChange::FailedOpen { dropped_events },
            beep: beep_if(BEEP_ALERT),
        },
        UiEvent::Timer => {
            if flags.was_remote && !flags.active {
                UiReaction {
                    flags: ModeFlags { active: false, was_remote: false },
                    clear_pressed: true,
                    send: Some(Outbound::ReleaseAll),
                    status: StatusChange::FailedOpen { dropped_events },
                    beep: beep_if(BEEP_ALERT),
                }
            } else {
                UiReaction {
                    flags,
                    clear_pressed: false,
                    send: None,
                    status: StatusChange::Unchanged,
                    beep: None,
                }
            }
        },
    }
}

/// Remote mode is only ever entered by the toggle hotkey while connected, and
/// every other event leaves it with the local keyboard restored.
pub proof fn lemma_remote_only_by_toggle(
    flags: ModeFlags,
    connected: bool,
    notify: bool,
    dropped_events: u64,
    event: UiEvent,
)
    ensures
        ({
            let r = reaction(flags, connected, notify, dropped_events, event);
            &&& (r.flags.active && !flags.active) ==> (event == UiEvent::Toggle && connected)
            &&& (event == UiEvent::Emergency || event == UiEvent::FailOpen) ==> !r.flags.active
                && r.clear_pressed
            &&& (flags.active && !r.flags.active) ==> r.send is Some && r.clear_pressed
        }),
{
}

/// Failing open always releases: whatever the mode flags say (the hook may
/// already have cleared remote mode), it leaves remote mode, forgets the held
/// keys, asks the transport for RELEASE_ALL and reports the dropped events;
/// a timer tick that finds remote mode left without the interface does the
/// same.
pub proof fn lemma_fail_open_releases(
    flags: ModeFlags,
    connected: bool,
    notify: bool,
    dropped_events: u64,
    event: UiEvent,
)
    requires
        event == UiEvent::FailOpen || (event == UiEvent::Timer && flags.was_remote
            && !flags.active),
    ensures
        ({
            let r = reaction(flags, connected, notify, dropped_events, event);
            &&& r.send == Some(Outbound::ReleaseAll)
            &&& !r.flags.active
            &&& !r.flags.was_remote
            &&& r.clear_pressed
            &&& r.status == StatusChange::FailedOpen { dropped_events }
        }),
{
}

/// Emergency always drops the session: it sends the emergency request and
/// leaves remote mode whatever the flags; the toggle in remote mode always
/// sends RELEASE_ALL.
pub proof fn lemma_leaving_remote_releases(
    flags: ModeFlags,
    connected: bool,
    notify: bool,
    dropped_events: u64,
)
    ensures
        reaction(flags, connected, notify, dropped_events, UiEvent::Emergency).send == Some(
            Outbound::Emergency,
        ),
        !reaction(flags, connected, notify, dropped_events, UiEvent::Emergency).flags.active,
        flags.active ==> reaction(flags, connected, notify, dropped_events, UiEvent::Toggle).send
            == Some(Outbound::ReleaseAll),
        flags.active ==> !reaction(flags, connected, notify, dropped_events, UiEvent::Toggle).flags.active,
        !flags.active && connected ==> reaction(
            flags,
            connected,
            notify,
            dropped_events,
            UiEvent::Toggle,
        ).flags.active,
{
}

/// Which modifier keys are held right now.
#[derive(Clone, Copy, Debug, PartialEq, Eq, Structural)]
pub struct HeldModifiers {
    pub ctrl: bool,
    pub shift: bool,
    pub alt: bool,
    /// Either Windows key.
    pub win: bool,
}

/// Whether every modifier the bits ask for is held.
pub open spec fn modifiers_held(modifiers: u32, held: HeldModifiers) -> bool {
    (modifiers & MOD_CONTROL == 0 || held.ctrl) && (modifiers & MOD_SHIFT == 0 || held.shift) && (
    modifiers & MOD_ALT == 0 || held.alt) && (modifiers & MOD_WIN == 0 || held.win)
}

/// Whether every modifier the bits ask for is held.
pub fn modifiers_down(modifiers: u32, now: HeldModifiers) -> (b: bool)
    ensures
        b == modifiers_held(modifiers, now),
{
    (modifiers & MOD_CONTROL == 0 || now.ctrl) && (modifiers & MOD_SHIFT == 0 || now.shift) && (
    modifiers & MOD_ALT == 0 || now.alt) && (modifiers & MOD_WIN == 0 || now.win)
}

/// A low-level keyboard event as the hook receives it.
#[derive(Clone, Copy, Debug, PartialEq, Eq, Structural)]
pub struct HookEvent {
    /// The hook code; negative codes must be passed on untouched.
    pub code: i32,
    /// The window message (`WM_KEYDOWN` and the like).
    pub message: u32,
    pub vk: u32,
    pub scan: u32,
    /// `KBDLLHOOKSTRUCT.flags`.
    pub flags: u32,
    /// Microseconds since the client started.
    pub timestamp_micros: u64,
}

/// A request the hook posts to the user-interface thread.
#[derive(Clone, Copy, Debug, PartialEq, Eq, Structural)]
pub enum UiRequest {
    Toggle,
    Emergency,
}

/// What the hook does with an event.
#[derive(Clone, Copy, Debug, PartialEq, Eq, Structural)]
pub enum HookAction {
    /// Let Windows handle the key.
    Pass,
    /// Suppress the key.
    Swallow,
    /// Suppress the key and post a request to the user-interface thread.
    Post(UiRequest),
    /// Suppress the key and send it to the transport.
    Forward(RawKey),
}

/// The hook's memory: whether each hotkey's trigger key is down (so that its
/// release is suppressed too), and which keys are held while forwarding.
pub struct HookState {
    pub toggle_down: bool,
    pub emergency_down: bool,
    pub keys: PressedKeys,
}

/// The hook's memory as plain values.
pub struct HookModel {
    pub toggle_down: bool,
    pub emergency_down: bool,
    pub keys: Set<u16>,
}

impl View for HookState {
    type V = HookModel;

    open spec fn view(&self) -> HookModel {
        HookModel {
            toggle_down: self.toggle_down,
            emergency_down: self.emergency_down,
            keys: self.keys@,
        }
    }
}

pub open spec fn is_down(message: u32) -> bool {
    message == WM_KEYDOWN || message == WM_SYSKEYDOWN
}

pub open spec fn is_up(message: u32) -> bool {
    message == WM_KEYUP || message == WM_SYSKEYUP
}

/// The Linux code of the event's key: Pause by its virtual key, every other
/// key by its scan code.
pub open spec fn event_key(e: HookEvent) -> Option<u16> {
    if e.vk == VK_PAUSE {
        Some(pause_code())
    } else {
        linux_code(e.scan, e.flags & LLKHF_EXTENDED != 0)
    }
}

/// The wire flags of the event's key.
pub open spec fn event_flags(e: HookEvent) -> u16 {
    if e.vk == VK_PAUSE {
        EXTENDED_E1
    } else if e.flags & LLKHF_EXTENDED != 0 {
        EXTENDED_E0
    } else {
        0
    }
}

/// The hook's decision once the hotkeys have not claimed the event.
pub open spec fn forward_step(m: HookModel, e: HookEvent, active: bool) -> (HookModel, HookAction) {
    if !active {
        (m, HookAction::Pass)
    } else {
        match event_key(e) {
            None => (m, HookAction::Swallow),
            Some(code) => {
                let down = is_down(e.message);
                let state = if !down {
                    KeyState::Up
                } else if m.keys.contains(code) {
                    KeyState::Repeat
                } else {
                    KeyState::Down
                };
                let keys = if down { m.keys.insert(code) } else { m.keys.remove(code) };
                (
                    HookModel { keys, ..m },
                    HookAction::Forward(
                        RawKey {
                            code,
                            state,
                            flags: event_flags(e),
                            timestamp_micros: e.timestamp_micros,
                        },
                    ),
                )
            },
        }
    }
}

/// The hook's decision after the emergency hotkey has let the event pass.
pub open spec fn toggle_step(
    m: HookModel,
    e: HookEvent,
    toggle: Hotkey,
    held: HeldModifiers,
    active: bool,
) -> (HookModel, HookAction) {
    if e.vk == toggle.vk && is_up(e.message) && m.toggle_down {
        (HookModel { toggle_down: false, ..m }, HookAction::Swallow)
    } else if e.vk == toggle.vk && is_down(e.message) && modifiers_held(toggle.modifiers, held) {
        (
            HookModel { toggle_down: true, ..m },
            if m.toggle_down {
                HookAction::Swallow
            } else {
                HookAction::Post(UiRequest::Toggle)
            },
        )
    } else {
        forward_step(m, e, active)
    }
}

/// What `HookState::on_key` answers: injected events and other messages pass;
/// the emergency hotkey, then the toggle hotkey, are claimed (their trigger
/// key down posts a request once, its release is suppressed); outside remote
/// mode everything else passes; in remote mode keys are forwarded with their
/// state, and keys the mapping does not know are suppressed.
pub open spec fn hook_step(
    m: HookModel,
    e: HookEvent,
    toggle: Hotkey,
    emergency: Hotkey,
    held: HeldModifiers,
    active: bool,
) -> (HookModel, HookAction) {
    if e.code < 0 || e.flags & LLKHF_INJECTED != 0 || !(is_down(e.message) || is_up(e.message)) {
        (m, HookAction::Pass)
    } else if e.vk == emergency.vk && is_up(e.message) && m.emergency_down {
        (HookModel { emergency_down: false, ..m }, HookAction::Swallow)
    } else if e.vk == emergency.vk && is_down(e.message) && modifiers_held(emergency.modifiers, held) {
        (
            HookModel { emergency_down: true, ..m },
            if m.emergency_down {
                HookAction::Swallow
            } else {
                HookAction::Post(UiRequest::Emergency)
            },
        )
    } else {
        toggle_step(m, e, toggle, held, active)
    }
}

impl HookState {
    pub fn new() -> (s: HookState)
        ensures
            !s@.toggle_down,
            !s@.emergency_down,
            s@.keys == Set::<u16>::empty(),
    {
        HookState { toggle_down: false, emergency_down: false, keys: PressedKeys::new() }
    }

    /// Decides what the keyboard hook does with one event.
    pub fn on_key(
        &mut self,
        e: HookEvent,
        toggle: Hotkey,
        emergency: Hotkey,
        held_now: HeldModifiers,
        active: bool,
    ) -> (r: HookAction)
        ensures
            (final(self)@, r) == hook_step(old(self)@, e, toggle, emergency, held_now, active),
    {
        let down = e.message == WM_KEYDOWN || e.message == WM_SYSKEYDOWN;
        let up = e.message == WM_KEYUP || e.message == WM_SYSKEYUP;
        if e.code < 0 || e.flags & LLKHF_INJECTED != 0 || !(down || up) {
            return HookAction::Pass;
        }
        if e.vk == emergency.vk {
            if up && self.emergency_down {
                self.emergency_down = false;
                return HookAction::Swallow;
            }
            if down && modifiers_down(emergency.modifiers, held_now) {
                let was = self.emergency_down;
                self.emergency_down = true;
                return if was {
                    HookAction::Swallow
                } else {
                    HookAction::Post(UiRequest::Emergency)
                };
            }
        }
        if e.vk == toggle.vk {
            if up && self.toggle_down {
                self.toggle_down = false;
                return HookAction::Swallow;
            }
            if down && modifiers_down(toggle.modifiers, held_now) {
                let was = self.toggle_down;
                self.toggle_down = true;
                return if was {
                    HookAction::Swallow
                } else {
                    HookAction::Post(UiRequest::Toggle)
                };
            }
        }
        if !active {
            return HookAction::Pass;
        }
        let extended = e.flags & LLKHF_EXTENDED != 0;
        let pause_key = e.vk == VK_PAUSE;
        let key = if pause_key {
            Some(pause())
        } else {
            to_linux(e.scan, extended)
        };
        match key {
            None => HookAction::Swallow,
            Some(code) => {
                let state = self.keys.key_state(code, down);
                let flags = if pause_key {
                    EXTENDED_E1
                } else if extended {
                    EXTENDED_E0
                } else {
                    0
                };
                HookAction::Forward(
                    RawKey { code, state, flags, timestamp_micros: e.timestamp_micros },
                )
            },
        }
    }

    /// Forgets which keys are held (on every mode change).
    pub fn clear_pressed(&mut self)
        ensures
            final(self)@.keys == Set::<u16>::empty(),
            final(self)@.toggle_down == old(self)@.toggle_down,
            final(self)@.emergency_down == old(self)@.emergency_down,
    {
        self.keys.clear();
    }
}

/// How handing a forwarded key to the transport queue went.
#[derive(Clone, Copy, Debug, PartialEq, Eq, Structural)]
pub enum QueueResult {
    /// The key is queued.
    Queued,
    /// The queue is full and the key was dropped.
    Full,
    /// There is no transport to take it.
    Closed,
}

/// The hook's shared flags: remote mode, and how many forwarded keys the
/// queue has dropped.
#[derive(Clone, Copy, Debug, PartialEq, Eq, Structural)]
pub struct ForwardFlags {
    pub active: bool,
    pub dropped_events: u64,
}

/// What the hook does after trying to queue a forwarded key.
#[derive(Clone, Copy, Debug, PartialEq, Eq, Structural)]
pub struct QueueReaction {
    pub flags: ForwardFlags,
    /// Ask the user-interface thread to fail open.
    pub fail_open: bool,
}

/// What `after_queue` answers: a full queue counts the dropped key (the count
/// wraps), leaves remote mode at once and asks to fail open; otherwise
/// nothing changes.
pub open spec fn queue_reaction(result: QueueResult, flags: ForwardFlags) -> QueueReaction {
    match result {
        QueueResult::Full => QueueReaction {
            flags: ForwardFlags {
                active: false,
                dropped_events: vstd::wrapping::u64_specs::wrapping_add(flags.dropped_events, 1),
            },
            fail_open: true,
        },
        _ => QueueReaction { flags, fail_open: false },
    }
}

/// Decides what follows an attempt to queue a forwarded key: when the queue
/// overflows, suppression ends immediately and the interface fails open.
pub fn after_queue(result: QueueResult, flags: ForwardFlags) -> (r: QueueReaction)
    ensures
        r == queue_reaction(result, flags),
{
    match result {
        QueueResult::Full => QueueReaction {
            flags: ForwardFlags {
                active: false,
                dropped_events: flags.dropped_events.wrapping_add(1),
            },
            fail_open: true,
        },
        _ => QueueReaction { flags, fail_open: false },
    }
}

/// The emergency hotkey is never forwarded: its trigger key, pressed with its
/// modifiers or released after such a press, is always suppressed, and no
/// event is forwarded outside remote mode.
pub proof fn lemma_emergency_never_forwarded(
    m: HookModel,
    e: HookEvent,
    toggle: Hotkey,
    emergency: Hotkey,
    held: HeldModifiers,
    active: bool,
)
    requires
        e.code >= 0,
        e.flags & LLKHF_INJECTED == 0,
        e.vk == emergency.vk,
        (is_down(e.message) && modifiers_held(emergency.modifiers, held)) || (is_up(e.message)
            && m.emergency_down),
    ensures
        !(hook_step(m, e, toggle, emergency, held, active).1 is Forward),
        hook_step(m, e, toggle, emergency, held, active).1 != HookAction::Pass,
{
}

/// A real (not injected) key event for the hook.
pub open spec fn is_live(e: HookEvent) -> bool {
    e.code >= 0 && e.flags & LLKHF_INJECTED == 0
}

/// The toggle hotkey works every time: while remote or local, a press of its
/// trigger key with its modifiers held, when the trigger is not already
/// down, posts the toggle request; the release of that key is suppressed
/// and re-arms the trigger, so pressing the hotkey again posts the request
/// again.
pub proof fn lemma_toggle_rearms(
    m: HookModel,
    press: HookEvent,
    release: HookEvent,
    toggle: Hotkey,
    emergency: Hotkey,
    held: HeldModifiers,
    held_at_release: HeldModifiers,
    active: bool,
)
    requires
        is_live(press),
        is_live(release),
        press.vk == toggle.vk,
        release.vk == toggle.vk,
        toggle.vk != emergency.vk,
        is_down(press.message),
        is_up(release.message),
        modifiers_held(toggle.modifiers, held),
        !m.toggle_down,
    ensures
        ({
            let (m1, a1) = hook_step(m, press, toggle, emergency, held, active);
            let (m2, a2) = hook_step(m1, release, toggle, emergency, held_at_release, active);
            let (m3, a3) = hook_step(m2, press, toggle, emergency, held, active);
            &&& a1 == HookAction::Post(UiRequest::Toggle)
            &&& m1.toggle_down
            &&& a2 == HookAction::Swallow
            &&& !m2.toggle_down
            &&& a3 == HookAction::Post(UiRequest::Toggle)
            &&& m1.keys == m.keys && m2.keys == m.keys
        }),
{
}

/// The same for the emergency hotkey: a press posts the emergency request, its
/// release is suppressed and re-arms it, and the next press posts again.
pub proof fn lemma_emergency_rearms(
    m: HookModel,
    press: HookEvent,
    release: HookEvent,
    toggle: Hotkey,
    emergency: Hotkey,
    held: HeldModifiers,
    held_at_release: HeldModifiers,
    active: bool,
)
    requires
        is_live(press),
        is_live(release),
        press.vk == emergency.vk,
        release.vk == emergency.vk,
        is_down(press.message),
        is_up(release.message),
        modifiers_held(emergency.modifiers, held),
        !m.emergency_down,
    ensures
        ({
            let (m1, a1) = hook_step(m, press, toggle, emergency, held, active);
            let (m2, a2) = hook_step(m1, release, toggle, emergency, held_at_release, active);
            let (m3, a3) = hook_step(m2, press, toggle, emergency, held, active);
            &&& a1 == HookAction::Post(UiRequest::Emergency)
            &&& m1.emergency_down
            &&& a2 == HookAction::Swallow
            &&& !m2.emergency_down
            &&& a3 == HookAction::Post(UiRequest::Emergency)
        }),
{
}

/// Holding a hotkey down (auto-repeat) posts its request only once: a
/// second press while the trigger is down is suppressed without a request.
pub proof fn lemma_hotkey_repeat_posts_once(
    m: HookModel,
    press: HookEvent,
    toggle: Hotkey,
    emergency: Hotkey,
    held: HeldModifiers,
    active: bool,
)
    requires
        is_live(press),
        press.vk == toggle.vk,
        toggle.vk != emergency.vk,
        is_down(press.message),
        modifiers_held(toggle.modifiers, held),
        m.toggle_down,
    ensures
        hook_step(m, press, toggle, emergency, held, active).1 == HookAction::Swallow,
        hook_step(m, press, toggle, emergency, held, active).0.toggle_down,
{
}

/// Outside remote mode the hook forwards nothing.
pub proof fn lemma_nothing_forwarded_when_local(
    m: HookModel,
    e: HookEvent,
    toggle: Hotkey,
    emergency: Hotkey,
    held: HeldModifiers,
)
    ensures
        !(hook_step(m, e, toggle, emergency, held, false).1 is Forward),
{
}

} // verus!
