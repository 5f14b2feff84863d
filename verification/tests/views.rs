use bdo_optimizer_launcher::autostart;
use bdo_optimizer_launcher::clock::{format_date, format_time, local_clock, CalendarFields};
use bdo_optimizer_launcher::commands::{ModeDto, ScheduleKindDto, ScheduleRuleInputDto, SettingInputDto, SettingKeyDto, ThemeModeDto};
use bdo_optimizer_launcher::mode_request::{apply_message, with_last_user_mode, ApplyOutcome};
use bdo_optimizer_launcher::monitor_view::{core_is_active, monitor_status, monitor_system_info_for_test, FpsTracker};
use bdo_optimizer_launcher::schedule::{LocalClock, OptimizeMode, ScheduleKind, ScheduleRule};
use bdo_optimizer_launcher::schedule_view::{
    add_rule_from_input, delete_rule, schedule_rule_dto, schedule_state_at, toggle_rule,
};
use bdo_optimizer_launcher::setting_input::{
    apply_setting_change, autostart_enabled_message, autostart_minimized_message, setting_action, SettingAction,
};
use bdo_optimizer_launcher::settings::{AppSettings, ThemeMode};

fn rule(id: u32, active: bool) -> ScheduleRule {
    ScheduleRule {
        id,
        name: format!("r{id}"),
        kind: ScheduleKind::Daily,
        start_time: "09:00".into(),
        end_time: "10:00".into(),
        mode: OptimizeMode::High,
        active,
    }
}

fn form(name: &str, kind: ScheduleKindDto, date: Option<&str>, start: &str, end: &str) -> ScheduleRuleInputDto {
    ScheduleRuleInputDto {
        name: name.into(),
        kind,
        date: date.map(|d| d.to_string()),
        start_time: start.into(),
        end_time: end.into(),
        mode: ModeDto::LowPower,
    }
}

#[test]
fn adding_a_rule_gives_it_a_fresh_id_and_trims_the_form() {
    let mut rules = vec![rule(3, true), rule(9, false)];
    let r = add_rule_from_input(&mut rules, form(" 야간 ", ScheduleKindDto::SpecificDate, Some(" 2026-06-03 "), "22:00", " 06:00"));
    assert_eq!(r, Ok((true, "스케줄 규칙이 추가되었습니다.".to_string())));
    let added = rules.last().unwrap();
    assert_eq!(added.id, 10);
    assert_eq!(added.name, "야간");
    assert_eq!(added.kind, ScheduleKind::SpecificDate("2026-06-03".into()));
    assert_eq!(added.end_time, "06:00");
    assert!(added.active);
    assert_eq!(added.mode, OptimizeMode::LowPower);
}

#[test]
fn invalid_forms_are_refused_in_order() {
    let mut rules = vec![rule(1, true)];
    let reply = |f: ScheduleRuleInputDto, rules: &mut Vec<ScheduleRule>| add_rule_from_input(rules, f).unwrap();
    assert_eq!(reply(form(" ", ScheduleKindDto::Daily, None, "09:00", "10:00"), &mut rules), (false, "규칙 이름, 시작/종료 시간을 모두 입력하세요.".into()));
    assert_eq!(reply(form(&"가".repeat(65), ScheduleKindDto::Daily, None, "09:00", "10:00"), &mut rules), (false, "규칙 이름이 너무 깁니다. 64자 이내로 입력하세요.".into()));
    assert_eq!(reply(form("a", ScheduleKindDto::Daily, None, "9:00", "10:00"), &mut rules), (false, "시작/종료 시간 형식이 올바르지 않습니다. HH:MM 형식으로 입력하세요.".into()));
    assert_eq!(reply(form("a", ScheduleKindDto::SpecificDate, Some("2025-02-29"), "09:00", "10:00"), &mut rules), (false, "날짜 형식이 올바르지 않습니다. YYYY-MM-DD 형식으로 입력하세요.".into()));
    assert_eq!(rules.len(), 1);
}

#[test]
fn deleting_removes_every_rule_with_the_id() {
    let mut rules = vec![rule(1, true), rule(2, true), rule(1, false), rule(3, true)];
    assert_eq!(delete_rule(&mut rules, 1), (true, "스케줄 규칙이 삭제되었습니다.".into()));
    assert_eq!(rules.iter().map(|r| r.id).collect::<Vec<_>>(), vec![2, 3]);
    assert_eq!(delete_rule(&mut rules, 1), (false, "삭제할 스케줄 규칙을 찾을 수 없습니다.".into()));
}

#[test]
fn toggling_twice_restores_the_rules() {
    let mut rules = vec![rule(1, true), rule(2, true), rule(2, false)];
    assert_eq!(toggle_rule(&mut rules, 2), (true, "스케줄 규칙 상태가 변경되었습니다.".into()));
    assert_eq!(rules.iter().map(|r| r.active).collect::<Vec<_>>(), vec![true, false, false]);
    toggle_rule(&mut rules, 2);
    assert_eq!(rules.iter().map(|r| r.active).collect::<Vec<_>>(), vec![true, true, false]);
    assert_eq!(toggle_rule(&mut rules, 5), (false, "변경할 스케줄 규칙을 찾을 수 없습니다.".into()));
}

#[test]
fn schedule_tab_state_names_the_rule_in_force() {
    let rules = vec![rule(1, true)];
    let clock = LocalClock { today: "2026-05-22".into(), weekday: 4, time_now: "09:30".into(), yesterday: "2026-05-21".into(), yweekday: 3 };
    let s = schedule_state_at(&rules, &clock);
    assert_eq!(s.active_rule_info, "활성 규칙: r1 | 매일 | 09:00-10:00 | 고성능");
    assert!(!s.empty);
    assert_eq!(s.rules[0], schedule_rule_dto(&rules[0]));
    assert_eq!(s.rules[0].kind, ScheduleKindDto::Daily);
    assert_eq!(s.rules[0].date, None);
    let empty = schedule_state_at(&[], &clock);
    assert_eq!(empty.active_rule_info, "활성 규칙 없음.");
    assert!(empty.empty);
}

fn setting(key: SettingKeyDto) -> SettingInputDto {
    SettingInputDto { key, theme_mode: None, bool_value: None, string_value: None, default_mode: None, int_value: None }
}

#[test]
fn setting_changes_are_classified() {
    assert_eq!(setting_action(&setting(SettingKeyDto::ThemeMode)), SettingAction::Reply("themeMode 값을 입력하세요.".into()));
    let long_path = SettingInputDto { string_value: Some("x".repeat(513)), ..setting(SettingKeyDto::LauncherPath) };
    assert_eq!(setting_action(&long_path), SettingAction::Reply("런처 경로가 너무 깁니다. 512자 이내로 입력하세요.".into()));
    let ok_path = SettingInputDto { string_value: Some("x".repeat(512)), ..setting(SettingKeyDto::LauncherPath) };
    assert_eq!(setting_action(&ok_path), SettingAction::Save);
    let auto = SettingInputDto { bool_value: Some(true), ..setting(SettingKeyDto::AutostartEnabled) };
    assert_eq!(setting_action(&auto), SettingAction::SetAutostart(true));
    let min = SettingInputDto { bool_value: Some(false), ..setting(SettingKeyDto::AutostartMinimized) };
    assert_eq!(setting_action(&min), SettingAction::SetAutostartMinimized(false));
}

#[test]
fn saved_setting_changes_update_one_field() {
    let mut s = AppSettings::default();
    let theme = SettingInputDto { theme_mode: Some(ThemeModeDto::Dark), ..setting(SettingKeyDto::ThemeMode) };
    assert_eq!(apply_setting_change(&mut s, &theme), "테마 설정을 저장했습니다.");
    assert_eq!(s.theme_mode, ThemeMode::Dark);
    let none = setting(SettingKeyDto::DefaultMode);
    assert_eq!(apply_setting_change(&mut s, &none), "기본 적용 모드를 사용 안 함으로 설정했습니다.");
    let high = SettingInputDto { default_mode: Some(ModeDto::High), ..setting(SettingKeyDto::DefaultMode) };
    assert_eq!(apply_setting_change(&mut s, &high), "기본 적용 모드를 저장했습니다.");
    assert_eq!(s.default_mode, Some(OptimizeMode::High));
    let alert = SettingInputDto { bool_value: Some(false), ..setting(SettingKeyDto::UpdateAlertEnabled) };
    assert_eq!(apply_setting_change(&mut s, &alert), "업데이트 알림을 껐습니다.");
    assert!(!s.update_alert_enabled);
    assert_eq!(s.monitor_interval_ms, 1000);
}

#[test]
fn autostart_replies() {
    assert_eq!(autostart_enabled_message(true, &Ok(())), Ok("자동 시작을 등록했습니다.".into()));
    assert_eq!(autostart_enabled_message(false, &Err(autostart::Error::TaskNotFound)), Ok("자동 시작이 이미 해제되어 있습니다.".into()));
    assert!(autostart_enabled_message(true, &Err(autostart::Error::TaskNotFound)).is_err());
    assert!(autostart_minimized_message(false, true, &None).is_ok());
}

#[test]
fn apply_messages_follow_the_outcome() {
    assert_eq!(apply_message(OptimizeMode::High, &ApplyOutcome::Applied { save_error: None }), "고성능 모드 적용 완료.");
    assert_eq!(apply_message(OptimizeMode::High, &ApplyOutcome::Applied { save_error: Some("disk".into()) }), "모드는 적용했지만 설정 저장에 실패했습니다: disk");
    assert_eq!(apply_message(OptimizeMode::Normal, &ApplyOutcome::NoProcess), "BlackDesert64.exe 프로세스를 찾을 수 없습니다.");
    assert_eq!(apply_message(OptimizeMode::Normal, &ApplyOutcome::Failed("denied".into())), "오류: denied");
    let mut s = AppSettings::default();
    with_last_user_mode(&mut s, OptimizeMode::LowPower);
    assert_eq!(s.last_user_mode, Some(OptimizeMode::LowPower));
}

#[test]
fn fps_tracker_claims_once_and_retries_after_the_delay() {
    let mut t: FpsTracker<&str> = FpsTracker::new();
    let o = t.observe(Some(700), 0);
    let (pid, generation) = o.claim.unwrap();
    assert_eq!(pid, 700);
    assert!(t.observe(Some(700), 10).claim.is_none());
    // The start failed: no retry before the delay.
    assert_eq!(t.finish_start(700, generation, None, 100), None);
    assert!(t.observe(Some(700), 200).claim.is_none());
    let (_, g2) = t.observe(Some(700), 5100).claim.unwrap();
    assert_eq!(t.finish_start(700, g2, Some("session"), 5200), None);
    assert_eq!(t.session, Some("session"));
    // A late start for an older claim is handed back.
    assert_eq!(t.finish_start(700, generation, Some("late"), 5300), Some("late"));
    // The game is gone.
    let gone = t.observe(None, 6000);
    assert_eq!(gone.detached, Some("session"));
    assert!(gone.invalidate_claims);
    assert_eq!(t.stop(), None);
}

#[test]
fn monitor_lines() {
    assert_eq!(monitor_status(Some(4321)), "PID 4321 모니터링 중.");
    assert_eq!(monitor_status(None), "BlackDesert64.exe 프로세스를 찾을 수 없습니다.");
    let info = monitor_system_info_for_test("CPU".into(), vec!["A".into(), "B".into()]);
    assert_eq!(info.gpu_name, "A / B");
    assert_eq!(monitor_system_info_for_test("CPU".into(), vec![]).gpu_name, "Unknown GPU");
    assert!(core_is_active(Some(0b10), 1));
    assert!(!core_is_active(Some(0b10), 0));
    assert!(core_is_active(None, 5));
    assert!(!core_is_active(None, 64));
}

#[test]
fn calendar_fields_are_formatted_with_leading_zeros() {
    let f = CalendarFields { year: 987, month: 3, day: 4, hour: 5, minute: 6, weekday: 2 };
    assert_eq!(format_date(&f), "0987-03-04");
    assert_eq!(format_time(&f), "05:06");
    let c = local_clock();
    assert_eq!(c.today.len(), 10);
    assert_eq!(c.time_now.len(), 5);
    assert!(c.weekday < 7 && c.yweekday < 7);
}
