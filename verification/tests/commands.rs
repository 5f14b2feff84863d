use std::cell::Cell;

use bdo_optimizer_launcher::commands::{
    check_update_alert,
    backend_mode, build_control_state, command_response, initial_update_state, mode_dto, mode_label,
    mode_params, settings_state, update_error_state, update_state_from_check, ModeDto, ScheduleKindDto,
    ScheduleRuleInputDto, SettingInputDto, SettingKeyDto, ThemeModeDto,
};
use bdo_optimizer_launcher::launcher::LaunchFlag;
use bdo_optimizer_launcher::mode_request::{
    apply_mode_request, ApplyOutcome, prepare_mode_request, reapply_decision, reapply_wait_ms, ModeGeneration, PreparedModeRequest, ReapplyDecision,
    REAPPLY_TARGETS_MS,
};
use bdo_optimizer_launcher::monitor_view::{
    fps_start_claim_is_current, monitor_fps_display, should_alert_for_update_for_test, should_claim_fps_start,
};
use bdo_optimizer_launcher::process::{CpuInfo, HIGH_PRIORITY_CLASS, IDLE_PRIORITY_CLASS};
use bdo_optimizer_launcher::schedule::{self, OptimizeMode};
use bdo_optimizer_launcher::schedule_view::{next_schedule_id, schedule_rule_from_input_for_test};
use bdo_optimizer_launcher::settings::{AppSettings, ThemeMode};
use bdo_optimizer_launcher::setting_input::validate_setting_input;
use bdo_optimizer_launcher::update::{available_update_check, current_update_check, APP_VERSION};

fn input(key: SettingKeyDto, int_value: Option<u32>) -> SettingInputDto {
    SettingInputDto { key, theme_mode: None, bool_value: None, string_value: None, default_mode: None, int_value }
}

#[test]
fn setting_input_rejects_missing_bool_value() {
    let err = validate_setting_input(&input(SettingKeyDto::ReduceMotion, None)).unwrap_err();
    assert!(err.contains("boolValue"));
}

#[test]
fn monitor_interval_accepts_only_supported_values() {
    let make = |ms: Option<u32>| input(SettingKeyDto::MonitorInterval, ms);
    assert!(validate_setting_input(&make(Some(500))).is_ok());
    assert!(validate_setting_input(&make(Some(1000))).is_ok());
    assert!(validate_setting_input(&make(Some(2000))).is_ok());
    assert!(validate_setting_input(&make(Some(1500))).is_err());
    assert!(validate_setting_input(&make(None)).is_err());
}

#[test]
fn update_check_interval_accepts_only_supported_values() {
    let make = |ms: Option<u32>| input(SettingKeyDto::UpdateCheckInterval, ms);
    assert!(validate_setting_input(&make(Some(21_600_000))).is_ok());
    assert!(validate_setting_input(&make(Some(43_200_000))).is_ok());
    assert!(validate_setting_input(&make(Some(86_400_000))).is_ok());
    assert!(validate_setting_input(&make(Some(259_200_000))).is_ok());
    assert!(validate_setting_input(&make(Some(604_800_000))).is_ok());
    assert!(validate_setting_input(&make(Some(3_600_000))).is_err());
    assert!(validate_setting_input(&make(None)).is_err());
}

#[test]
fn accent_palette_accepts_only_supported_values() {
    let make = |palette: Option<u32>| input(SettingKeyDto::AccentPalette, palette);
    assert!(validate_setting_input(&make(Some(0))).is_ok());
    assert!(validate_setting_input(&make(Some(1))).is_ok());
    assert!(validate_setting_input(&make(Some(2))).is_ok());
    assert!(validate_setting_input(&make(Some(3))).is_ok());
    assert!(validate_setting_input(&make(Some(4))).is_err());
    assert!(validate_setting_input(&make(None)).is_err());
}

#[test]
fn update_alert_setting_requires_bool_value() {
    let err = validate_setting_input(&input(SettingKeyDto::UpdateAlertEnabled, None)).unwrap_err();
    assert!(err.contains("boolValue"));
}

#[test]
fn update_alert_notification_decision_dedupes_versions() {
    assert!(should_alert_for_update_for_test(true, "0.1.2", None));
    assert!(should_alert_for_update_for_test(true, "0.1.2", Some("0.1.1")));
    assert!(!should_alert_for_update_for_test(true, "0.1.2", Some("0.1.2")));
    assert!(!should_alert_for_update_for_test(false, "0.1.2", None));
}

#[test]
fn default_mode_setting_accepts_none_selection() {
    assert!(validate_setting_input(&input(SettingKeyDto::DefaultMode, None)).is_ok());
}

#[test]
fn fps_session_start_is_claimed_once_per_observed_pid() {
    assert!(should_claim_fps_start(None, false, false, false, 700));
    assert!(should_claim_fps_start(Some(699), false, true, false, 700));
    assert!(!should_claim_fps_start(Some(700), true, false, false, 700));
    assert!(!should_claim_fps_start(Some(700), false, true, false, 700));
    assert!(should_claim_fps_start(Some(700), false, false, false, 700));
    assert!(!should_claim_fps_start(None, false, false, true, 700));
    assert!(fps_start_claim_is_current(Some(700), true, 4, 700, 4));
    assert!(!fps_start_claim_is_current(Some(700), true, 5, 700, 4));
}

#[test]
fn fps_display_distinguishes_foreign_events_and_expired_game_fps() {
    assert_eq!(monitor_fps_display(0, 0, 10, true), (None, "게임 Present 미수신 (10 ev)".to_string()));
    assert_eq!(monitor_fps_display(0, 3, 10, true), (Some(0), "0 FPS".to_string()));
}

#[test]
fn initial_update_state_uses_default_release_channel() {
    let state = initial_update_state();
    assert_eq!(state.status_text, "업데이트 확인 전.");
    assert!(!state.available);
    assert!(!state.checking);
    assert_eq!(state.release_url, "");
}

#[test]
fn schedule_input_rejects_specific_date_without_date() {
    let input = ScheduleRuleInputDto {
        name: "특정일".to_string(),
        kind: ScheduleKindDto::SpecificDate,
        date: None,
        start_time: "19:00".to_string(),
        end_time: "23:00".to_string(),
        mode: ModeDto::High,
    };
    let err = schedule_rule_from_input_for_test(input, 1).unwrap_err();
    assert!(err.contains("날짜"));
}

#[test]
fn new_mode_request_invalidates_previous_generation_even_if_it_later_fails() {
    let mut counter = ModeGeneration::new();
    let first = counter.begin_mode_generation();
    let failed_request = counter.begin_mode_generation();
    assert!(!counter.generation_is_current(first));
    assert!(counter.generation_is_current(failed_request));
}

#[test]
fn reapply_waits_are_based_on_request_start_not_previous_sleep() {
    assert_eq!(500, reapply_wait_ms(0, 500));
    assert_eq!(500, reapply_wait_ms(500, 1000));
    assert_eq!(1000, reapply_wait_ms(1000, 2000));
    assert_eq!(3000, reapply_wait_ms(2000, 5000));
    assert_eq!(5000, reapply_wait_ms(5000, 10000));
    assert_eq!(0, reapply_wait_ms(11000, 10000));
}

#[test]
fn active_schedule_persists_manual_choice_without_immediate_os_apply() {
    let save_calls = Cell::new(0);
    let generation_calls = Cell::new(0);
    let scheduled = prepare_mode_request::<(), _, _>(
        OptimizeMode::Normal,
        true,
        Some(OptimizeMode::High),
        |mode| {
            assert_eq!(mode, OptimizeMode::Normal);
            save_calls.set(save_calls.get() + 1);
            Ok(())
        },
        || {
            generation_calls.set(generation_calls.get() + 1);
            1
        },
    )
    .unwrap();
    assert_eq!(scheduled, PreparedModeRequest::DeferredBySchedule(OptimizeMode::High));
    assert_eq!(save_calls.get(), 1);
    assert_eq!(generation_calls.get(), 0);

    let inactive = prepare_mode_request::<(), _, _>(
        OptimizeMode::LowPower,
        true,
        None,
        |_| panic!("inactive schedule must persist only after a successful apply"),
        || 9,
    )
    .unwrap();
    assert_eq!(inactive, PreparedModeRequest::ApplyNow { generation: 9 });
}

#[test]
fn active_schedule_save_failure_does_not_start_a_generation() {
    let generation_calls = Cell::new(0);
    let result = prepare_mode_request(
        OptimizeMode::Normal,
        true,
        Some(OptimizeMode::High),
        |_| Err("save failed"),
        || {
            generation_calls.set(generation_calls.get() + 1);
            1
        },
    );
    assert_eq!(result, Err("save failed"));
    assert_eq!(generation_calls.get(), 0);
}

#[test]
fn launcher_single_flight_claim_releases_on_drop() {
    let mut flag = LaunchFlag::new();
    assert!(flag.try_acquire());
    assert!(!flag.try_acquire());
    flag.release();
    assert!(flag.try_acquire());
}

#[test]
fn add_schedule_id_overflow_is_returned_as_a_command_error() {
    let rules = vec![schedule::ScheduleRule {
        id: u32::MAX,
        name: "last".to_string(),
        kind: schedule::ScheduleKind::Daily,
        start_time: "09:00".to_string(),
        end_time: "10:00".to_string(),
        mode: OptimizeMode::Normal,
        active: true,
    }];
    assert_eq!(next_schedule_id(&rules), Err("스케줄 규칙 ID 공간이 소진되었습니다.".to_string()));
}

#[test]
fn mode_conversions_round_trip() {
    for m in [OptimizeMode::High, OptimizeMode::Normal, OptimizeMode::LowPower] {
        assert_eq!(backend_mode(mode_dto(m)), m);
        assert_eq!(OptimizeMode::from(ModeDto::from(m)), m);
    }
    assert_eq!(ThemeMode::from(ThemeModeDto::from(ThemeMode::Dark)), ThemeMode::Dark);
    assert_eq!(mode_label(ModeDto::LowPower), "저전력 모드");
}

#[test]
fn mode_parameters_pair_affinity_priority_and_message() {
    let info = CpuInfo { physical_cores: 4, logical_threads: 8, p_core_mask: 0, e_core_mask: 0, has_hybrid: false };
    assert_eq!(mode_params(OptimizeMode::High, &info), (0b0101_0101, HIGH_PRIORITY_CLASS, "고성능 모드 적용 완료."));
    assert_eq!(mode_params(OptimizeMode::LowPower, &info), (0b1100_0000, IDLE_PRIORITY_CLASS, "저전력 모드 적용 완료."));
}

#[test]
fn control_state_and_responses() {
    let c = build_control_state(true, false, Some(ModeDto::High), "C:\\x".into());
    assert!(c.current_mode_known);
    let r = command_response("done", c.clone());
    assert_eq!(r.status.current, "done");
    assert_eq!(r.status.previous, "");
    assert_eq!(r.control, c);
    assert!(!build_control_state(true, false, None, String::new()).current_mode_known);
}

#[test]
fn settings_state_hides_unsupported_values() {
    let loaded = AppSettings { accent_palette: 9, update_check_interval_ms: 5, theme_mode: ThemeMode::Dark, ..AppSettings::default() };
    let s = settings_state(loaded, true, false, || panic!("not asked for a fixed theme"));
    assert_eq!(s.accent_palette, 0);
    assert_eq!(s.update_check_interval_ms, 86_400_000);
    assert!(s.effective_dark);
    assert!(s.autostart_enabled && !s.autostart_minimized);
}

#[test]
fn update_states_from_checks_and_errors() {
    let s = update_state_from_check(available_update_check("0.3.0".into(), None));
    assert!(s.available && !s.checking);
    assert_eq!(s.latest_version.as_deref(), Some("0.3.0"));
    assert_eq!(s.app_version, APP_VERSION);
    let e = update_error_state("offline");
    assert_eq!(e.status_text, "offline");
    assert!(!e.available);
}

#[test]
fn reapplication_runs_five_times_and_stops_for_a_newer_request() {
    assert_eq!(REAPPLY_TARGETS_MS, [500, 1000, 2000, 5000, 10000]);
    assert_eq!(reapply_decision(0, true, Some(42)), ReapplyDecision::Apply(42));
    assert_eq!(reapply_decision(4, true, Some(7)), ReapplyDecision::Apply(7));
    assert_eq!(reapply_decision(2, true, None), ReapplyDecision::Skip);
    assert_eq!(reapply_decision(5, true, Some(42)), ReapplyDecision::Stop);
    assert_eq!(reapply_decision(1, false, Some(42)), ReapplyDecision::Stop);
    let mut generations = ModeGeneration::new();
    let first = generations.begin_mode_generation();
    let _second = generations.begin_mode_generation();
    assert_eq!(reapply_decision(1, generations.generation_is_current(first), Some(42)), ReapplyDecision::Stop);
}

#[test]
fn update_alert_is_off_checks_or_alerts_once() {
    let never = || -> Result<_, String> { panic!("no check while alerts are off") };
    let no_record = |_c: &_| -> Result<bool, String> { panic!("nothing to record") };
    let r = check_update_alert(false, never, no_record).unwrap();
    assert_eq!(r.status.current, "업데이트 알림이 꺼져 있습니다.");
    assert!(!r.should_alert && r.alert_text.is_empty());
    assert_eq!(r.update.status_text, "업데이트 확인 전.");

    let failed = || -> Result<_, String> { Err("네트워크 오류".to_string()) };
    let r = check_update_alert(true, failed, no_record).unwrap();
    assert_eq!(r.status.current, "네트워크 오류");
    assert_eq!(r.update.status_text, "네트워크 오류");
    assert!(!r.should_alert);

    let current = || -> Result<_, String> { Ok(current_update_check()) };
    let r = check_update_alert(true, current, no_record).unwrap();
    assert!(!r.should_alert && r.alert_text.is_empty());

    let newer = || -> Result<_, String> { Ok(available_update_check("9.9.9".to_string(), None)) };
    let r = check_update_alert(true, newer, |c: &_| -> Result<bool, String> {
        let _: &bdo_optimizer_launcher::update::UpdateCheck = c;
        Ok(true)
    })
    .unwrap();
    assert!(r.should_alert);
    assert_eq!(r.alert_text, r.update.status_text);
    assert_eq!(r.status.current, r.update.status_text);

    let newer = || -> Result<_, String> { Ok(available_update_check("9.9.9".to_string(), None)) };
    let r = check_update_alert(true, newer, |_c: &_| -> Result<bool, String> { Ok(false) }).unwrap();
    assert!(!r.should_alert && r.alert_text.is_empty());

    let newer = || -> Result<_, String> { Ok(available_update_check("9.9.9".to_string(), None)) };
    let r = check_update_alert(true, newer, |_c: &_| -> Result<bool, String> { Err("저장 실패".to_string()) });
    assert_eq!(r.unwrap_err(), "저장 실패");
}

#[test]
fn a_mode_request_saves_applies_and_schedules_reapplication() {
    let saved = Cell::new(0);
    let save = |_m: OptimizeMode| -> Result<(), String> {
        saved.set(saved.get() + 1);
        Ok(())
    };
    // A schedule rule in force: only saved, no request number, nothing applied.
    let r = apply_mode_request(
        OptimizeMode::High,
        true,
        Some(OptimizeMode::LowPower),
        &save,
        || -> u64 { panic!("no request while deferred") },
        || -> Option<u32> { panic!("no lookup while deferred") },
        |_p: u32| -> Result<(), String> { panic!("nothing applied while deferred") },
    );
    assert_eq!(r.0, ApplyOutcome::Deferred);
    assert_eq!(r.1, None);
    assert_eq!(saved.get(), 1);
    // Applied, then saved, and re-applications are due under request 7.
    let r = apply_mode_request(OptimizeMode::High, true, None, &save, || 7, || Some(42), |p: u32| {
        assert_eq!(p, 42);
        Ok(())
    });
    assert_eq!(r.0, ApplyOutcome::Applied { save_error: None });
    assert_eq!(r.1, Some(7));
    assert_eq!(saved.get(), 2);
    // No game: nothing applied, nothing saved.
    let r = apply_mode_request(OptimizeMode::Normal, true, None, &save, || 8, || None, |_p: u32| -> Result<(), String> {
        panic!("no process")
    });
    assert_eq!(r, (ApplyOutcome::NoProcess, None));
    assert_eq!(saved.get(), 2);
    // A failure is reported and nothing is re-applied.
    let r = apply_mode_request(OptimizeMode::Normal, false, None, &save, || 9, || Some(1), |_p: u32| Err("denied".to_string()));
    assert_eq!(r, (ApplyOutcome::Failed("denied".to_string()), None));
}
