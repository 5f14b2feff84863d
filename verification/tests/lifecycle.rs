use std::cell::Cell;

use bdo_optimizer_launcher::lifecycle::{
    auto_low_power_transition, automation_mode_action, cancel_all_shutdowns, close_request_action,
    default_mode_action, start_minimized_requested, tray_command_from_menu_id,
    visible_mode_maintenance_action, AutoLowPowerAction, AutomationInput, AutomationState,
    CloseRequestAction, TrayLifecycleCommand,
};
use bdo_optimizer_launcher::schedule::OptimizeMode;
use bdo_optimizer_launcher::schedule::OptimizeMode::{High, LowPower, Normal};
use bdo_optimizer_launcher::shutdown;

#[test]
fn close_to_tray_hides_window_unless_quitting() {
    assert_eq!(close_request_action(true, false), CloseRequestAction::HideToTray);
    assert_eq!(close_request_action(false, false), CloseRequestAction::Exit);
    assert_eq!(close_request_action(true, true), CloseRequestAction::Exit);
}

#[test]
fn tray_menu_id_maps_to_lifecycle_command() {
    assert_eq!(tray_command_from_menu_id("tray_toggle_window"), Some(TrayLifecycleCommand::ToggleWindow));
    assert_eq!(
        tray_command_from_menu_id("tray_apply_low_power"),
        Some(TrayLifecycleCommand::ApplyMode(OptimizeMode::LowPower))
    );
    assert_eq!(tray_command_from_menu_id("tray_unknown"), None);
}

#[test]
fn tray_cancel_handles_once_only_schedule() {
    let once_calls = Cell::new(0);
    let weekly_calls = Cell::new(0);
    let result = cancel_all_shutdowns(
        || {
            once_calls.set(once_calls.get() + 1);
            Ok(())
        },
        || {
            weekly_calls.set(weekly_calls.get() + 1);
            Err(shutdown::Error::TaskNotFound)
        },
    );
    assert!(result.is_ok());
    assert_eq!((once_calls.get(), weekly_calls.get()), (1, 1));
}

#[test]
fn tray_cancel_handles_weekly_only_schedule() {
    let once_calls = Cell::new(0);
    let weekly_calls = Cell::new(0);
    let result = cancel_all_shutdowns(
        || {
            once_calls.set(once_calls.get() + 1);
            Err(shutdown::Error::TaskNotFound)
        },
        || {
            weekly_calls.set(weekly_calls.get() + 1);
            Ok(())
        },
    );
    assert!(result.is_ok());
    assert_eq!((once_calls.get(), weekly_calls.get()), (1, 1));
}

#[test]
fn tray_cancel_handles_both_schedules_and_aggregates_real_errors() {
    let success = cancel_all_shutdowns(|| Ok(()), || Ok(()));
    assert!(success.is_ok());

    let failure = cancel_all_shutdowns(
        || Err(shutdown::Error::DeleteFailed("once".to_string())),
        || Err(shutdown::Error::DeleteFailed("weekly".to_string())),
    )
    .unwrap_err();
    assert!(failure.contains("단발"));
    assert!(failure.contains("매주"));
    assert!(failure.contains("once"));
    assert!(failure.contains("weekly"));
}

#[test]
fn tray_cancel_message_texts() {
    assert_eq!(cancel_all_shutdowns(|| Ok(()), || Ok(())).unwrap(), "단발 및 매주 종료 예약이 취소되었습니다.");
    assert_eq!(
        cancel_all_shutdowns(|| Err(shutdown::Error::RegisterOnceFailed), || Ok(())).unwrap_err(),
        "단발 예약: 단발 종료 예약 등록 실패. 관리자 권한을 확인하세요."
    );
}

#[test]
fn auto_low_power_only_runs_on_visible_to_hidden_transition() {
    assert_eq!(auto_low_power_transition(true, Some(true), Some(false), None), AutoLowPowerAction::ApplyLowPower);
    assert_eq!(auto_low_power_transition(true, None, Some(false), None), AutoLowPowerAction::ApplyLowPower);
    assert_eq!(auto_low_power_transition(true, None, Some(true), None), AutoLowPowerAction::Noop);
    assert_eq!(auto_low_power_transition(true, Some(false), Some(false), None), AutoLowPowerAction::Noop);
    assert_eq!(auto_low_power_transition(false, Some(true), Some(false), None), AutoLowPowerAction::Noop);
}

#[test]
fn auto_low_power_restores_saved_mode_on_hidden_to_visible_transition() {
    assert_eq!(
        auto_low_power_transition(true, Some(false), Some(true), Some(OptimizeMode::Normal)),
        AutoLowPowerAction::Restore(OptimizeMode::Normal)
    );
    assert_eq!(auto_low_power_transition(true, Some(false), Some(true), None), AutoLowPowerAction::Noop);
}

#[test]
fn visible_mode_maintenance_reapplies_last_user_mode_only_when_visible() {
    assert_eq!(visible_mode_maintenance_action(Some(true), Some(High), Some(Normal)), Some(High));
    assert_eq!(visible_mode_maintenance_action(Some(true), Some(High), None), Some(High));
    assert_eq!(visible_mode_maintenance_action(Some(true), Some(High), Some(High)), None);
    assert_eq!(visible_mode_maintenance_action(Some(false), Some(High), Some(LowPower)), None);
    assert_eq!(visible_mode_maintenance_action(None, Some(High), Some(Normal)), None);
    assert_eq!(visible_mode_maintenance_action(Some(true), None, Some(Normal)), None);
}

#[test]
fn start_minimized_arg_is_detected_for_autostart_tray_launch() {
    assert!(start_minimized_requested(&["app.exe", "--minimized"]));
    assert!(!start_minimized_requested(&["app.exe"]));
}

#[test]
fn default_mode_applies_only_when_game_newly_appears() {
    assert_eq!(default_mode_action(Some(High), Some(false), true), Some(High));
    assert_eq!(default_mode_action(Some(High), None, true), Some(High));
    assert_eq!(default_mode_action(Some(High), Some(true), true), None);
    assert_eq!(default_mode_action(Some(High), Some(true), false), None);
    assert_eq!(default_mode_action(Some(High), None, false), None);
    assert_eq!(default_mode_action(None, Some(false), true), None);
}

fn automation_input(visible: Option<bool>, current_mode: Option<OptimizeMode>) -> AutomationInput {
    AutomationInput {
        current_present: true,
        current_visible: visible,
        current_mode,
        auto_low_power: true,
        active_schedule: None,
        last_user_mode: None,
        default_mode: None,
    }
}

#[test]
fn automation_priority_is_hidden_then_schedule_then_user_then_default() {
    let mut state = AutomationState::default();
    let mut input = automation_input(Some(true), Some(OptimizeMode::Normal));
    input.active_schedule = Some((7, OptimizeMode::High));
    input.last_user_mode = Some(OptimizeMode::Normal);
    input.default_mode = Some(OptimizeMode::LowPower);
    assert_eq!(automation_mode_action(&mut state, input), Some(OptimizeMode::High));

    input.current_visible = Some(false);
    input.current_mode = Some(OptimizeMode::High);
    assert_eq!(automation_mode_action(&mut state, input), Some(OptimizeMode::LowPower));

    input.current_visible = Some(true);
    input.current_mode = Some(OptimizeMode::LowPower);
    assert_eq!(automation_mode_action(&mut state, input), Some(OptimizeMode::High));

    input.active_schedule = None;
    input.current_mode = Some(OptimizeMode::High);
    assert_eq!(automation_mode_action(&mut state, input), Some(OptimizeMode::Normal));
}

#[test]
fn automation_applies_default_only_when_game_first_appears() {
    let mut state = AutomationState::default();
    let mut input = automation_input(Some(true), Some(OptimizeMode::Normal));
    input.default_mode = Some(OptimizeMode::High);
    assert_eq!(automation_mode_action(&mut state, input), Some(OptimizeMode::High));

    input.current_mode = Some(OptimizeMode::Normal);
    assert_eq!(automation_mode_action(&mut state, input), None);
}

#[test]
fn automation_first_hidden_tick_enters_low_power_and_restores_baseline() {
    let mut state = AutomationState::default();
    let mut input = automation_input(Some(false), Some(OptimizeMode::High));
    assert_eq!(automation_mode_action(&mut state, input), Some(OptimizeMode::LowPower));

    input.current_visible = Some(true);
    input.current_mode = Some(OptimizeMode::LowPower);
    assert_eq!(automation_mode_action(&mut state, input), Some(OptimizeMode::High));
}

#[test]
fn automation_first_hidden_tick_applies_default_when_auto_low_power_is_disabled() {
    let mut state = AutomationState::default();
    let mut input = automation_input(Some(false), Some(OptimizeMode::Normal));
    input.auto_low_power = false;
    input.default_mode = Some(OptimizeMode::High);
    assert_eq!(automation_mode_action(&mut state, input), Some(OptimizeMode::High));
}

#[test]
fn game_exit_resets_the_automation() {
    let mut state = AutomationState::default();
    let input = automation_input(Some(false), Some(OptimizeMode::High));
    assert_eq!(automation_mode_action(&mut state, input), Some(OptimizeMode::LowPower));
    let mut gone = input;
    gone.current_present = false;
    gone.current_visible = None;
    assert_eq!(automation_mode_action(&mut state, gone), None);
    assert_eq!(state.previous_present, Some(false));
    assert_eq!(state.auto_restore_mode, None);
    assert_eq!(state.previous_visible, None);
}

#[test]
fn schedule_end_restores_the_mode_from_before_it() {
    let mut state = AutomationState::default();
    let mut input = automation_input(Some(true), Some(OptimizeMode::Normal));
    input.auto_low_power = false;
    input.active_schedule = Some((3, OptimizeMode::LowPower));
    assert_eq!(automation_mode_action(&mut state, input), Some(OptimizeMode::LowPower));
    input.active_schedule = None;
    input.current_mode = Some(OptimizeMode::LowPower);
    assert_eq!(automation_mode_action(&mut state, input), Some(OptimizeMode::Normal));
}
