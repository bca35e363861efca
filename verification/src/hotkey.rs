//! What a press or release of the global hotkey does, in each hotkey mode.
use vstd::prelude::*;
use crate::text::{str_eq, trim, trimmed};
use vstd::string::StringExecFns;

verus! {

/// A press and release shorter than this is a tap (tap twice to finish).
pub const AUTO_TAP_THRESHOLD_MS: u64 = 350;

/// The hotkey's edges, as the shortcut plugin reports them.
#[derive(Debug, Clone, Copy, PartialEq, Eq, Structural)]
pub enum ShortcutEvent {
    Pressed,
    Released,
}

/// How the hotkey drives dictation.
#[derive(Debug, Clone, Copy, PartialEq, Eq, Structural)]
pub enum HotkeyMode {
    /// Press to talk, release to stop.
    Hold,
    /// Press to start, press again to stop.
    Toggle,
    /// Hold to talk, or tap to start and tap again to stop.
    Auto,
}

/// What the dictation handle is asked to do.
#[derive(Debug, Clone, Copy, PartialEq, Eq, Structural)]
pub enum HotkeyAction {
    Ignore,
    Toggle,
    HoldBegin,
    HoldEnd,
}

pub open spec fn spec_hotkey_mode(mode: Seq<char>) -> HotkeyMode {
    if mode == "toggle"@ {
        HotkeyMode::Toggle
    } else if mode == "auto"@ {
        HotkeyMode::Auto
    } else {
        HotkeyMode::Hold
    }
}

/// The mode a settings value names; anything unknown is `Hold`.
pub fn hotkey_mode_from_setting(mode: &str) -> (m: HotkeyMode)
    ensures
        m == spec_hotkey_mode(mode@),
{
    if str_eq(mode, "toggle") {
        HotkeyMode::Toggle
    } else if str_eq(mode, "auto") {
        HotkeyMode::Auto
    } else {
        HotkeyMode::Hold
    }
}

pub open spec fn empty_hotkey_message() -> Seq<char> {
    "快捷键不能为空"@
}

/// The hotkey text to parse: `hotkey` trimmed, which must not be empty.
pub fn validate_hotkey_text(hotkey: &str) -> (r: Result<String, String>)
    ensures
        r matches Ok(t) ==> t@ == trimmed(hotkey@) && t@.len() > 0,
        r matches Err(msg) ==> trimmed(hotkey@).len() == 0 && msg@ == empty_hotkey_message(),
        r is Ok <==> trimmed(hotkey@).len() > 0,
{
    let t = trim(hotkey);
    if t.as_str().is_empty() {
        return Err(String::from_str("快捷键不能为空"));
    }
    Ok(t)
}

/// The state `Auto` mode keeps between events: when the current press began
/// (a monotonic millisecond clock), and whether a tap has armed a stop.
pub struct AutoHotkeyState {
    pub press_started_ms: Option<u64>,
    pub tap_armed: bool,
}

impl AutoHotkeyState {
    pub open spec fn at_rest(self) -> bool {
        self.press_started_ms is None && !self.tap_armed
    }

    pub fn new() -> (s: Self)
        ensures
            s.at_rest(),
    {
        AutoHotkeyState { press_started_ms: None, tap_armed: false }
    }

    pub fn reset(&mut self)
        ensures
            final(self).at_rest(),
    {
        self.press_started_ms = None;
        self.tap_armed = false;
    }
}

/// Milliseconds from `start` to `now`; zero if the clock reads earlier.
pub open spec fn elapsed_ms(start: u64, now: u64) -> u64 {
    if now >= start {
        (now - start) as u64
    } else {
        0
    }
}

/// `Auto` mode: the action for `event` at time `now_ms`, and the state after it.
pub open spec fn auto_step(s: AutoHotkeyState, event: ShortcutEvent, now_ms: u64) -> (
    AutoHotkeyState,
    HotkeyAction,
) {
    match event {
        ShortcutEvent::Pressed => if s.tap_armed {
            (AutoHotkeyState { tap_armed: false, ..s }, HotkeyAction::Toggle)
        } else if s.press_started_ms is Some {
            (s, HotkeyAction::Ignore)
        } else {
            (AutoHotkeyState { press_started_ms: Some(now_ms), ..s }, HotkeyAction::HoldBegin)
        },
        ShortcutEvent::Released => match s.press_started_ms {
            None => (s, HotkeyAction::Ignore),
            Some(started) => if elapsed_ms(started, now_ms) >= AUTO_TAP_THRESHOLD_MS {
                (AutoHotkeyState { press_started_ms: None, tap_armed: false }, HotkeyAction::HoldEnd)
            } else {
                (AutoHotkeyState { press_started_ms: None, tap_armed: true }, HotkeyAction::Ignore)
            },
        },
    }
}

/// `Auto` mode: a held key talks until it is released; a quick tap starts a
/// recording that the next press stops.
pub fn handle_auto_hotkey(state: &mut AutoHotkeyState, event: ShortcutEvent, now_ms: u64) -> (a:
    HotkeyAction)
    ensures
        (*final(state), a) == auto_step(*old(state), event, now_ms),
{
    match event {
        ShortcutEvent::Pressed => {
            if state.tap_armed {
                state.tap_armed = false;
                return HotkeyAction::Toggle;
            }
            if state.press_started_ms.is_some() {
                return HotkeyAction::Ignore;
            }
            state.press_started_ms = Some(now_ms);
            HotkeyAction::HoldBegin
        },
        ShortcutEvent::Released => {
            let started = match state.press_started_ms {
                Some(t) => t,
                None => {
                    return HotkeyAction::Ignore;
                },
            };
            state.press_started_ms = None;
            let elapsed = if now_ms >= started {
                now_ms - started
            } else {
                0
            };
            if elapsed >= AUTO_TAP_THRESHOLD_MS {
                state.tap_armed = false;
                HotkeyAction::HoldEnd
            } else {
                state.tap_armed = true;
                HotkeyAction::Ignore
            }
        },
    }
}

/// The action for a hotkey event in each mode, and the `Auto` state after it.
pub open spec fn hotkey_step(
    mode: HotkeyMode,
    s: AutoHotkeyState,
    event: ShortcutEvent,
    now_ms: u64,
) -> (AutoHotkeyState, HotkeyAction) {
    match mode {
        HotkeyMode::Toggle => (s, if event == ShortcutEvent::Pressed {
            HotkeyAction::Toggle
        } else {
            HotkeyAction::Ignore
        }),
        HotkeyMode::Auto => auto_step(s, event, now_ms),
        HotkeyMode::Hold => (s, if event == ShortcutEvent::Pressed {
            HotkeyAction::HoldBegin
        } else {
            HotkeyAction::HoldEnd
        }),
    }
}

/// The action for a hotkey event under `mode`.
pub fn hotkey_action(
    mode: HotkeyMode,
    state: &mut AutoHotkeyState,
    event: ShortcutEvent,
    now_ms: u64,
) -> (a: HotkeyAction)
    ensures
        (*final(state), a) == hotkey_step(mode, *old(state), event, now_ms),
{
    match mode {
        HotkeyMode::Toggle => {
            if event == ShortcutEvent::Pressed {
                HotkeyAction::Toggle
            } else {
                HotkeyAction::Ignore
            }
        },
        HotkeyMode::Auto => handle_auto_hotkey(state, event, now_ms),
        HotkeyMode::Hold => {
            if event == ShortcutEvent::Pressed {
                HotkeyAction::HoldBegin
            } else {
                HotkeyAction::HoldEnd
            }
        },
    }
}

/// `Auto` mode, a long press: pressing starts a hold, releasing after the tap
/// threshold ends it, and the state is back at rest.
pub proof fn auto_long_press_holds_and_returns_to_rest(s: AutoHotkeyState, t0: u64, t1: u64)
    requires
        s.at_rest(),
        t1 >= t0 + AUTO_TAP_THRESHOLD_MS,
    ensures
        auto_step(s, ShortcutEvent::Pressed, t0).1 == HotkeyAction::HoldBegin,
        auto_step(auto_step(s, ShortcutEvent::Pressed, t0).0, ShortcutEvent::Released, t1).1
            == HotkeyAction::HoldEnd,
        auto_step(auto_step(s, ShortcutEvent::Pressed, t0).0, ShortcutEvent::Released, t1).0.at_rest(),
{
}

/// `Auto` mode, a tap: a quick press and release starts a hold and arms a
/// stop; the next press asks for a toggle and leaves the state at rest.
pub proof fn auto_tap_then_press_toggles(s: AutoHotkeyState, t0: u64, t1: u64, t2: u64)
    requires
        s.at_rest(),
        t0 <= t1 < t0 + AUTO_TAP_THRESHOLD_MS,
    ensures
        ({
            let (s1, a1) = auto_step(s, ShortcutEvent::Pressed, t0);
            let (s2, a2) = auto_step(s1, ShortcutEvent::Released, t1);
            let (s3, a3) = auto_step(s2, ShortcutEvent::Pressed, t2);
            &&& a1 == HotkeyAction::HoldBegin
            &&& a2 == HotkeyAction::Ignore
            &&& s2.tap_armed
            &&& a3 == HotkeyAction::Toggle
            &&& s3.at_rest()
        }),
{
}

/// `Auto` mode: repeated presses while the key is held (auto-repeat) are ignored.
pub proof fn auto_repeat_press_ignored(s: AutoHotkeyState, t: u64)
    requires
        s.press_started_ms is Some,
        !s.tap_armed,
    ensures
        auto_step(s, ShortcutEvent::Pressed, t) == (s, HotkeyAction::Ignore),
{
}

/// `Auto` mode: a release with no press in progress does nothing.
pub proof fn auto_stray_release_ignored(s: AutoHotkeyState, t: u64)
    requires
        s.press_started_ms is None,
    ensures
        auto_step(s, ShortcutEvent::Released, t) == (s, HotkeyAction::Ignore),
{
}

} // verus!

verus! {

/// `hold`: pressing starts dictation and releasing stops it; `toggle`: each
/// press toggles and releases do nothing. Neither touches the `auto` state.
pub proof fn hold_and_toggle_modes(s: AutoHotkeyState, t: u64)
    ensures
        hotkey_step(HotkeyMode::Hold, s, ShortcutEvent::Pressed, t) == (s, HotkeyAction::HoldBegin),
        hotkey_step(HotkeyMode::Hold, s, ShortcutEvent::Released, t) == (s, HotkeyAction::HoldEnd),
        hotkey_step(HotkeyMode::Toggle, s, ShortcutEvent::Pressed, t) == (s, HotkeyAction::Toggle),
        hotkey_step(HotkeyMode::Toggle, s, ShortcutEvent::Released, t) == (s, HotkeyAction::Ignore),
{
}

} // verus!

verus! {

/// In `Auto` mode a stop is never armed while a press is in progress: every
/// event keeps that so, starting from rest.
pub proof fn auto_never_armed_while_pressed(s: AutoHotkeyState, event: ShortcutEvent, now_ms: u64)
    requires
        !(s.tap_armed && s.press_started_ms is Some),
    ensures
        ({
            let s1 = auto_step(s, event, now_ms).0;
            !(s1.tap_armed && s1.press_started_ms is Some)
        }),
{
}

} // verus!
