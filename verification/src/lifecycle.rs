use vstd::prelude::*;
use crate::schedule::OptimizeMode;
use crate::text::{owned, push_str, str_eq};

verus! {

/// Memory kept between two automation ticks.
#[derive(Debug, Clone, Copy, PartialEq, Eq, Structural)]
pub struct AutomationState {
    pub previous_present: Option<bool>,
    pub previous_visible: Option<bool>,
    pub auto_restore_mode: Option<OptimizeMode>,
    pub active_schedule_id: Option<u32>,
    pub schedule_restore_mode: Option<OptimizeMode>,
}

impl Default for AutomationState {
    fn default() -> (r: Self)
        ensures
            r == AutomationState::initial(),
    {
        AutomationState {
            previous_present: None,
            previous_visible: None,
            auto_restore_mode: None,
            active_schedule_id: None,
            schedule_restore_mode: None,
        }
    }
}

impl AutomationState {
    /// The state before the first tick.
    pub open spec fn initial() -> AutomationState {
        AutomationState {
            previous_present: None,
            previous_visible: None,
            auto_restore_mode: None,
            active_schedule_id: None,
            schedule_restore_mode: None,
        }
    }
}

/// What one automation tick observes.
#[derive(Debug, Clone, Copy)]
pub struct AutomationInput {
    pub current_present: bool,
    pub current_visible: Option<bool>,
    pub current_mode: Option<OptimizeMode>,
    pub auto_low_power: bool,
    pub active_schedule: Option<(u32, OptimizeMode)>,
    pub last_user_mode: Option<OptimizeMode>,
    pub default_mode: Option<OptimizeMode>,
}

/// `a` if it is set, else `b` (as `Option::or`).
pub open spec fn or_else(a: Option<OptimizeMode>, b: Option<OptimizeMode>) -> Option<OptimizeMode> {
    if a is Some { a } else { b }
}

/// The desired mode, unless it is the mode already in force.
pub open spec fn unless_current(
    desired: Option<OptimizeMode>,
    current: Option<OptimizeMode>,
) -> Option<OptimizeMode> {
    match desired {
        Some(m) => if current == Some(m) { None } else { Some(m) },
        None => None,
    }
}

/// One automation tick: the next state and the mode to apply, if any.
pub open spec fn automation_step(s: AutomationState, i: AutomationInput) -> (AutomationState, Option<OptimizeMode>) {
    let newly_present = i.current_present && s.previous_present != Some(true);
    if !i.current_present {
        (AutomationState {
            previous_present: Some(false),
            previous_visible: None,
            auto_restore_mode: None,
            active_schedule_id: None,
            schedule_restore_mode: None,
        }, None)
    } else {
        let s1 = AutomationState {
            previous_present: Some(true),
            previous_visible: i.current_visible,
            auto_restore_mode: s.auto_restore_mode,
            active_schedule_id: s.active_schedule_id,
            schedule_restore_mode: s.schedule_restore_mode,
        };
        if i.current_visible == Some(false) {
            if i.auto_low_power {
                let remember = s.previous_visible != Some(false) && i.current_mode != Some(OptimizeMode::LowPower);
                let s2 = AutomationState {
                    auto_restore_mode: if remember { i.current_mode } else { s.auto_restore_mode },
                    ..s1
                };
                (s2, unless_current(Some(OptimizeMode::LowPower), i.current_mode))
            } else if newly_present {
                (s1, unless_current(i.default_mode, i.current_mode))
            } else {
                (s1, None)
            }
        } else if i.current_visible != Some(true) {
            (s1, None)
        } else {
            match i.active_schedule {
                Some((rule_id, mode)) => {
                    let restore = if s.active_schedule_id is None {
                        or_else(or_else(or_else(i.last_user_mode, i.default_mode), s.auto_restore_mode), i.current_mode)
                    } else {
                        s.schedule_restore_mode
                    };
                    (AutomationState {
                        active_schedule_id: Some(rule_id),
                        schedule_restore_mode: restore,
                        ..s1
                    }, unless_current(Some(mode), i.current_mode))
                },
                None => {
                    if s.active_schedule_id is Some {
                        (AutomationState {
                            auto_restore_mode: None,
                            active_schedule_id: None,
                            schedule_restore_mode: None,
                            ..s1
                        }, unless_current(
                            or_else(or_else(or_else(i.last_user_mode, i.default_mode), s.auto_restore_mode), s.schedule_restore_mode),
                            i.current_mode,
                        ))
                    } else if s.previous_visible == Some(false) && i.auto_low_power {
                        (AutomationState { auto_restore_mode: None, ..s1 }, unless_current(
                            or_else(or_else(i.last_user_mode, i.default_mode), s.auto_restore_mode),
                            i.current_mode,
                        ))
                    } else if i.last_user_mode is Some {
                        (s1, unless_current(i.last_user_mode, i.current_mode))
                    } else if newly_present {
                        (s1, unless_current(i.default_mode, i.current_mode))
                    } else {
                        (s1, None)
                    }
                },
            }
        }
    }
}

fn opt_mode_eq(a: Option<OptimizeMode>, b: Option<OptimizeMode>) -> (r: bool)
    ensures
        r == (a == b),
{
    match (a, b) {
        (Some(x), Some(y)) => x == y,
        (None, None) => true,
        _ => false,
    }
}

fn filter_current(desired: Option<OptimizeMode>, current: Option<OptimizeMode>) -> (r: Option<OptimizeMode>)
    ensures
        r == unless_current(desired, current),
{
    match desired {
        Some(m) => if opt_mode_eq(current, Some(m)) { None } else { Some(m) },
        None => None,
    }
}

fn first_set(a: Option<OptimizeMode>, b: Option<OptimizeMode>) -> (r: Option<OptimizeMode>)
    ensures
        r == or_else(a, b),
{
    match a {
        Some(_) => a,
        None => b,
    }
}

/// Decides, once per tick, which mode the automation wants applied to the game.
/// Hidden game windows go to low power (when enabled), an active schedule wins over
/// the user's last choice, and the default mode is used only when the game appears.
pub fn automation_mode_action(state: &mut AutomationState, input: AutomationInput) -> (r: Option<OptimizeMode>)
    ensures
        (*final(state), r) == automation_step(*old(state), input),
{
    let newly_present = input.current_present && !matches!(state.previous_present, Some(true));
    state.previous_present = Some(input.current_present);

    if !input.current_present {
        state.previous_visible = None;
        state.auto_restore_mode = None;
        state.active_schedule_id = None;
        state.schedule_restore_mode = None;
        return None;
    }

    let previous_visible = state.previous_visible;
    state.previous_visible = input.current_visible;

    if matches!(input.current_visible, Some(false)) {
        if input.auto_low_power {
            let not_low = !opt_mode_eq(input.current_mode, Some(OptimizeMode::LowPower));
            if !matches!(previous_visible, Some(false)) && not_low {
                state.auto_restore_mode = input.current_mode;
            }
            if not_low {
                return Some(OptimizeMode::LowPower);
            }
        } else if newly_present {
            return filter_current(input.default_mode, input.current_mode);
        }
        return None;
    }

    if !matches!(input.current_visible, Some(true)) {
        return None;
    }

    let desired = if let Some((rule_id, mode)) = input.active_schedule {
        if state.active_schedule_id.is_none() {
            state.schedule_restore_mode = first_set(
                first_set(first_set(input.last_user_mode, input.default_mode), state.auto_restore_mode),
                input.current_mode,
            );
        }
        state.active_schedule_id = Some(rule_id);
        Some(mode)
    } else {
        let schedule_exited = state.active_schedule_id.take().is_some();
        if schedule_exited {
            let auto = state.auto_restore_mode.take();
            let sched = state.schedule_restore_mode.take();
            first_set(first_set(first_set(input.last_user_mode, input.default_mode), auto), sched)
        } else if matches!(previous_visible, Some(false)) && input.auto_low_power {
            let auto = state.auto_restore_mode.take();
            first_set(first_set(input.last_user_mode, input.default_mode), auto)
        } else if input.last_user_mode.is_some() {
            input.last_user_mode
        } else if newly_present {
            input.default_mode
        } else {
            None
        }
    };

    filter_current(desired, input.current_mode)
}

} // verus!

verus! {

/// What closing the main window does.
#[derive(Debug, Clone, Copy, PartialEq, Eq, Structural)]
pub enum CloseRequestAction {
    HideToTray,
    Exit,
}

/// Commands that the tray menu can issue.
#[derive(Debug, Clone, Copy, PartialEq, Eq, Structural)]
pub enum TrayLifecycleCommand {
    ToggleWindow,
    ApplyMode(OptimizeMode),
    CancelShutdown,
    Quit,
}

/// Outcome of a visibility transition under automatic low power.
#[derive(Debug, Clone, Copy, PartialEq, Eq, Structural)]
pub enum AutoLowPowerAction {
    Noop,
    ApplyLowPower,
    Restore(OptimizeMode),
}

pub const MENU_TOGGLE_WINDOW: &'static str = "tray_toggle_window";
pub const MENU_APPLY_HIGH: &'static str = "tray_apply_high";
pub const MENU_APPLY_NORMAL: &'static str = "tray_apply_normal";
pub const MENU_APPLY_LOW_POWER: &'static str = "tray_apply_low_power";
pub const MENU_CANCEL_SHUTDOWN: &'static str = "tray_cancel_shutdown";
pub const MENU_QUIT: &'static str = "tray_quit";

/// Closing hides the window to the tray only when that is enabled and the app is not quitting.
pub fn close_request_action(close_to_tray: bool, quitting: bool) -> (r: CloseRequestAction)
    ensures
        r == (if close_to_tray && !quitting { CloseRequestAction::HideToTray } else { CloseRequestAction::Exit }),
{
    if close_to_tray && !quitting {
        CloseRequestAction::HideToTray
    } else {
        CloseRequestAction::Exit
    }
}

/// The command bound to a tray menu id.
pub open spec fn menu_command(id: Seq<char>) -> Option<TrayLifecycleCommand> {
    if id == "tray_toggle_window"@ {
        Some(TrayLifecycleCommand::ToggleWindow)
    } else if id == "tray_apply_high"@ {
        Some(TrayLifecycleCommand::ApplyMode(OptimizeMode::High))
    } else if id == "tray_apply_normal"@ {
        Some(TrayLifecycleCommand::ApplyMode(OptimizeMode::Normal))
    } else if id == "tray_apply_low_power"@ {
        Some(TrayLifecycleCommand::ApplyMode(OptimizeMode::LowPower))
    } else if id == "tray_cancel_shutdown"@ {
        Some(TrayLifecycleCommand::CancelShutdown)
    } else if id == "tray_quit"@ {
        Some(TrayLifecycleCommand::Quit)
    } else {
        None
    }
}

pub fn tray_command_from_menu_id(id: &str) -> (r: Option<TrayLifecycleCommand>)
    ensures
        r == menu_command(id@),
{
    if str_eq(id, MENU_TOGGLE_WINDOW) {
        Some(TrayLifecycleCommand::ToggleWindow)
    } else if str_eq(id, MENU_APPLY_HIGH) {
        Some(TrayLifecycleCommand::ApplyMode(OptimizeMode::High))
    } else if str_eq(id, MENU_APPLY_NORMAL) {
        Some(TrayLifecycleCommand::ApplyMode(OptimizeMode::Normal))
    } else if str_eq(id, MENU_APPLY_LOW_POWER) {
        Some(TrayLifecycleCommand::ApplyMode(OptimizeMode::LowPower))
    } else if str_eq(id, MENU_CANCEL_SHUTDOWN) {
        Some(TrayLifecycleCommand::CancelShutdown)
    } else if str_eq(id, MENU_QUIT) {
        Some(TrayLifecycleCommand::Quit)
    } else {
        None
    }
}

/// Low power on a visible-to-hidden transition (or a first hidden sighting),
/// and restoring the saved mode on a hidden-to-visible transition.
pub open spec fn auto_low_power_spec(
    enabled: bool,
    previous_visible: Option<bool>,
    current_visible: Option<bool>,
    restore_mode: Option<OptimizeMode>,
) -> AutoLowPowerAction {
    if !enabled {
        AutoLowPowerAction::Noop
    } else if current_visible == Some(false) && previous_visible != Some(false) {
        AutoLowPowerAction::ApplyLowPower
    } else if previous_visible == Some(false) && current_visible == Some(true) {
        match restore_mode {
            Some(m) => AutoLowPowerAction::Restore(m),
            None => AutoLowPowerAction::Noop,
        }
    } else {
        AutoLowPowerAction::Noop
    }
}

pub fn auto_low_power_transition(
    enabled: bool,
    previous_visible: Option<bool>,
    current_visible: Option<bool>,
    restore_mode: Option<OptimizeMode>,
) -> (r: AutoLowPowerAction)
    ensures
        r == auto_low_power_spec(enabled, previous_visible, current_visible, restore_mode),
{
    if !enabled {
        return AutoLowPowerAction::Noop;
    }
    match (previous_visible, current_visible) {
        (None, Some(false)) => AutoLowPowerAction::ApplyLowPower,
        (Some(true), Some(false)) => AutoLowPowerAction::ApplyLowPower,
        (Some(false), Some(true)) => match restore_mode {
            Some(m) => AutoLowPowerAction::Restore(m),
            None => AutoLowPowerAction::Noop,
        },
        _ => AutoLowPowerAction::Noop,
    }
}

/// While the game window is visible, re-apply the desired mode if it is not in force.
pub fn visible_mode_maintenance_action(
    current_visible: Option<bool>,
    desired_mode: Option<OptimizeMode>,
    current_mode: Option<OptimizeMode>,
) -> (r: Option<OptimizeMode>)
    ensures
        r == (if current_visible == Some(true) { unless_current(desired_mode, current_mode) } else { None }),
{
    if !matches!(current_visible, Some(true)) {
        return None;
    }
    filter_current(desired_mode, current_mode)
}

/// The default mode is applied only when the game newly appears.
pub fn default_mode_action(
    default_mode: Option<OptimizeMode>,
    previous_present: Option<bool>,
    current_present: bool,
) -> (r: Option<OptimizeMode>)
    ensures
        r == (if current_present && previous_present != Some(true) { default_mode } else { None }),
{
    match default_mode {
        None => None,
        Some(mode) => match (previous_present, current_present) {
            (None, true) | (Some(false), true) => Some(mode),
            _ => None,
        },
    }
}

/// The command line asks for a start hidden in the tray.
pub fn start_minimized_requested(args: &[&str]) -> (r: bool)
    ensures
        r == exists|i: int| 0 <= i < args@.len() && args@[i]@ == "--minimized"@,
{
    let mut i: usize = 0;
    while i < args.len()
        invariant
            i <= args.len(),
            forall|j: int| 0 <= j < i ==> args@[j]@ != "--minimized"@,
        decreases args.len() - i,
    {
        if str_eq(args[i], "--minimized") {
            return true;
        }
        i = i + 1;
    }
    false
}

pub open spec fn cancel_error_part(label: Seq<char>, r: Result<(), crate::shutdown::Error>) -> Seq<Seq<char>> {
    match r {
        Err(e) => if e is TaskNotFound { Seq::empty() } else { seq![label + crate::shutdown::error_text(e)] },
        Ok(_) => Seq::empty(),
    }
}

/// What cancelling both shutdown schedules reports, given the two outcomes.
pub open spec fn cancel_all_outcome(
    once: Result<(), crate::shutdown::Error>,
    weekly: Result<(), crate::shutdown::Error>,
) -> Result<Seq<char>, Seq<char>> {
    let errors = cancel_error_part("단발 예약: "@, once) + cancel_error_part("매주 예약: "@, weekly);
    if errors.len() == 0 {
        Ok("단발 및 매주 종료 예약이 취소되었습니다."@)
    } else if errors.len() == 1 {
        Err(errors[0])
    } else {
        Err(errors[0] + " / "@ + errors[1])
    }
}

fn cancel_error_message(label: &str, r: &Result<(), crate::shutdown::Error>) -> (m: Option<String>)
    ensures
        match m {
            Some(s) => cancel_error_part(label@, *r) == seq![s@],
            None => cancel_error_part(label@, *r) == Seq::<Seq<char>>::empty(),
        },
{
    match r {
        Err(e) => {
            if e.is_task_not_found() {
                None
            } else {
                let mut s = owned(label);
                let t = e.message();
                push_str(&mut s, t.as_str());
                Some(s)
            }
        },
        Ok(_) => None,
    }
}

/// Cancels the one-time and then the weekly shutdown (the weekly one only after the
/// one-time cancellation returned); a missing schedule is no error.
pub fn cancel_all_shutdowns<F, G>(cancel_once: F, cancel_weekly: G) -> (r: Result<String, String>)
    where
        F: FnOnce() -> Result<(), crate::shutdown::Error>,
        G: FnOnce() -> Result<(), crate::shutdown::Error>,
    requires
        call_requires(cancel_once, ()),
        (exists|a: Result<(), crate::shutdown::Error>| call_ensures(cancel_once, (), a)) ==> call_requires(cancel_weekly, ()),
    ensures
        exists|a: Result<(), crate::shutdown::Error>, b: Result<(), crate::shutdown::Error>|
            call_ensures(cancel_once, (), a) && call_ensures(cancel_weekly, (), b) && match (r, cancel_all_outcome(a, b)) {
                (Ok(x), Ok(y)) => x@ == y,
                (Err(x), Err(y)) => x@ == y,
                _ => false,
            },
{
    let a = cancel_once();
    let b = cancel_weekly();
    let ma = cancel_error_message("단발 예약: ", &a);
    let mb = cancel_error_message("매주 예약: ", &b);
    let r = match (ma, mb) {
        (None, None) => Ok(owned("단발 및 매주 종료 예약이 취소되었습니다.")),
        (Some(x), None) => Err(x),
        (None, Some(y)) => Err(y),
        (Some(x), Some(y)) => {
            let mut s = x;
            push_str(&mut s, " / ");
            push_str(&mut s, y.as_str());
            Err(s)
        },
    };
    assert(call_ensures(cancel_once, (), a) && call_ensures(cancel_weekly, (), b));
    r
}

} // verus!
