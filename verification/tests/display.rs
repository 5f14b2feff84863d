use bdo_optimizer_launcher::display::{
    cal_month_label, fmt_kbs, fmt_mb, fmt_mb_of_total, mode_label, pick_initial_mode, should_refresh_shutdown_ui,
};
use bdo_optimizer_launcher::schedule::OptimizeMode;

#[test]
fn pick_initial_mode_prefers_active_rule_over_last_user() {
    assert_eq!(pick_initial_mode(Some(OptimizeMode::LowPower), Some(OptimizeMode::High)), Some(OptimizeMode::LowPower));
}

#[test]
fn pick_initial_mode_falls_back_to_last_user_when_no_active_rule() {
    assert_eq!(pick_initial_mode(None, Some(OptimizeMode::Normal)), Some(OptimizeMode::Normal));
}

#[test]
fn pick_initial_mode_returns_none_when_both_missing() {
    assert_eq!(pick_initial_mode(None, None), None);
}

#[test]
fn mode_label_is_stable_for_each_variant() {
    assert_eq!(mode_label(OptimizeMode::High), "고성능 모드");
    assert_eq!(mode_label(OptimizeMode::Normal), "일반 모드");
    assert_eq!(mode_label(OptimizeMode::LowPower), "저전력 모드");
}

#[test]
fn shutdown_refresh_polling_runs_first_tick_then_every_sixty_seconds() {
    let mut tick = 0;
    assert!(should_refresh_shutdown_ui(&mut tick));
    for _ in 0..11 {
        assert!(!should_refresh_shutdown_ui(&mut tick));
    }
    assert!(should_refresh_shutdown_ui(&mut tick));
}

#[test]
fn sizes_rates_and_month_labels() {
    assert_eq!(fmt_mb(Some(1234)), "1234 MB");
    assert_eq!(fmt_mb(None), "--");
    assert_eq!(fmt_mb_of_total(Some(1234), 8192), "1234 / 8192 MB");
    assert_eq!(fmt_mb_of_total(Some(1234), 0), "1234 MB");
    assert_eq!(fmt_mb_of_total(None, 8192), "--");
    assert_eq!(fmt_kbs(Some(0)), "0 KB/s");
    assert_eq!(fmt_kbs(None), "--");
    assert_eq!(cal_month_label(2026, 5), "2026년 5월");
}
