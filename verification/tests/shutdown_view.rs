use bdo_optimizer_launcher::clock::CalendarFields;
use bdo_optimizer_launcher::cmd::CommandOutput;
use bdo_optimizer_launcher::commands::{ShutdownInputDto, ShutdownKindDto, WeekdayDto};
use bdo_optimizer_launcher::shutdown::{ScheduleSnapshot, ScheduledTime, WeeklyInfo};
use bdo_optimizer_launcher::shutdown_view::{
    cancel_shutdown, fmt_once, fmt_remaining_from_duration, fmt_weekly, fmt_weekly_days, register_shutdown,
    shutdown_state_from_snapshot, weekday_code, weekday_dto_from_code,
};

#[test]
fn fmt_zero_or_negative() {
    assert_eq!(fmt_remaining_from_duration(-1), "곧 실행");
    assert_eq!(fmt_remaining_from_duration(0), "곧 실행");
    assert_eq!(fmt_remaining_from_duration(30), "곧 실행");
}

#[test]
fn fmt_minutes_only() {
    assert_eq!(fmt_remaining_from_duration(60), "1분 남음");
    assert_eq!(fmt_remaining_from_duration(59 * 60), "59분 남음");
}

#[test]
fn fmt_hours_minutes() {
    assert_eq!(fmt_remaining_from_duration(3600), "1시간 남음");
    assert_eq!(fmt_remaining_from_duration(3600 + 23 * 60), "1시간 23분 남음");
    assert_eq!(fmt_remaining_from_duration(23 * 3600 + 59 * 60), "23시간 59분 남음");
}

#[test]
fn fmt_days_hours() {
    assert_eq!(fmt_remaining_from_duration(24 * 3600), "1일 남음");
    assert_eq!(fmt_remaining_from_duration(2 * 24 * 3600 + 5 * 3600), "2일 5시간 남음");
}

fn at(year: i32, month: u32, day: u32, hour: u32, minute: u32) -> CalendarFields {
    CalendarFields { year, month, day, hour, minute, weekday: 0 }
}

#[test]
fn once_and_weekly_texts() {
    let once = ScheduledTime { at: at(2026, 5, 20, 3, 5), secs_from_now: 2 * 3600 };
    assert_eq!(fmt_once(&once), "2026-05-20 03:05 (2시간 남음)");
    let weekly = WeeklyInfo {
        days: vec!["MON", "FRI"],
        time_hm: (23, 0),
        next_run: ScheduledTime { at: at(2026, 5, 22, 23, 0), secs_from_now: 90 },
    };
    assert_eq!(fmt_weekly(&weekly), "매주 월/금 23:00 (다음 1분 남음)");
    assert_eq!(fmt_weekly_days(&["SUN", "XYZ"]), "일/?");
}

#[test]
fn snapshot_becomes_the_card_state() {
    let snapshot = ScheduleSnapshot {
        once: Some(ScheduledTime { at: at(2026, 5, 20, 3, 5), secs_from_now: 30 }),
        weekly: Some(WeeklyInfo {
            days: vec!["TUE", "BAD", "SUN"],
            time_hm: (7, 30),
            next_run: ScheduledTime { at: at(2026, 5, 26, 7, 30), secs_from_now: 3600 },
        }),
    };
    let s = shutdown_state_from_snapshot(snapshot);
    assert!(s.once_active);
    assert_eq!(s.once_date.as_deref(), Some("2026-05-20"));
    assert_eq!(s.once_time.as_deref(), Some("03:05"));
    assert_eq!(s.once_text, "2026-05-20 03:05 (곧 실행)");
    assert!(s.weekly_active);
    assert_eq!(s.weekly_days, vec![WeekdayDto::Tue, WeekdayDto::Sun]);
    assert_eq!(s.weekly_time.as_deref(), Some("07:30"));

    let empty = shutdown_state_from_snapshot(ScheduleSnapshot { once: None, weekly: None });
    assert!(!empty.once_active && !empty.weekly_active);
    assert_eq!(empty.once_text, "");
    assert!(empty.weekly_days.is_empty());
}

#[test]
fn weekday_codes_round_trip() {
    for d in [WeekdayDto::Mon, WeekdayDto::Tue, WeekdayDto::Wed, WeekdayDto::Thu, WeekdayDto::Fri, WeekdayDto::Sat, WeekdayDto::Sun] {
        assert_eq!(weekday_dto_from_code(weekday_code(d)), Some(d));
    }
    assert_eq!(weekday_dto_from_code("mon"), None);
}

fn ok_schtasks(_args: Vec<String>) -> Result<CommandOutput, String> {
    Ok(CommandOutput { success: true, stdout: Vec::new(), stderr: Vec::new() })
}

#[test]
fn registering_from_the_form_reports_the_outcome() {
    let exe = r"C:\Windows\System32\shutdown.exe";
    let once = ShutdownInputDto { kind: ShutdownKindDto::Once, date: Some(" 2026-05-20 ".into()), time: " 23:30 ".into(), days: vec![] };
    assert_eq!(register_shutdown(&once, exe, &ok_schtasks), "단발 종료 예약 등록 완료: 2026-05-20 23:30.");
    let no_date = ShutdownInputDto { kind: ShutdownKindDto::Once, date: Some("  ".into()), time: "23:30".into(), days: vec![] };
    assert_eq!(register_shutdown(&no_date, exe, &ok_schtasks), "날짜를 입력하세요.");
    let weekly = ShutdownInputDto { kind: ShutdownKindDto::Weekly, date: None, time: "01:00".into(), days: vec![WeekdayDto::Sat] };
    assert_eq!(register_shutdown(&weekly, exe, &ok_schtasks), "매주 반복 종료 예약 등록 완료 (매주 01:00).");
    let no_days = ShutdownInputDto { kind: ShutdownKindDto::Weekly, date: None, time: "01:00".into(), days: vec![] };
    assert_eq!(register_shutdown(&no_days, exe, &ok_schtasks), "오류: 요일을 하나 이상 선택하세요.");
}

#[test]
fn cancelling_reports_the_outcome() {
    assert_eq!(cancel_shutdown(ShutdownKindDto::Once, &ok_schtasks), "단발 종료 예약이 취소되었습니다.");
    let missing = |_args: Vec<String>| Ok(CommandOutput { success: false, stdout: Vec::new(), stderr: Vec::new() });
    assert_eq!(cancel_shutdown(ShutdownKindDto::Weekly, &missing), "오류: 이미 등록된 예약이 없습니다.");
}

#[test]
fn shutdown_state_from_weekly_snapshot_carries_form_values() {
    // Now: Thursday 2026-06-04 10:00; next run: Sunday 2026-06-07 05:07.
    let secs = 3 * 86_400 - 10 * 3600 + 5 * 3600 + 7 * 60;
    let state = shutdown_state_from_snapshot(ScheduleSnapshot {
        once: None,
        weekly: Some(WeeklyInfo {
            days: vec!["MON", "SUN"],
            time_hm: (5, 7),
            next_run: ScheduledTime { at: at(2026, 6, 7, 5, 7), secs_from_now: secs },
        }),
    });

    assert!(state.weekly_active);
    assert_eq!(state.weekly_days, vec![WeekdayDto::Mon, WeekdayDto::Sun]);
    assert_eq!(state.weekly_time, Some("05:07".to_string()));
}

#[test]
fn shutdown_state_from_once_snapshot_carries_form_values() {
    // Now: 2026-07-11 10:00; the shutdown: 2026-07-12 23:30.
    let secs = 86_400 + 13 * 3600 + 30 * 60;
    let state = shutdown_state_from_snapshot(ScheduleSnapshot {
        once: Some(ScheduledTime { at: at(2026, 7, 12, 23, 30), secs_from_now: secs }),
        weekly: None,
    });

    assert_eq!(state.once_date, Some("2026-07-12".to_string()));
    assert_eq!(state.once_time, Some("23:30".to_string()));
}
