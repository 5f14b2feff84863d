use bdo_optimizer_launcher::schedule::OptimizeMode;
use bdo_optimizer_launcher::settings::{
    is_supported_accent_palette, is_supported_update_check_interval_ms, normalize_monitor_interval_ms,
    os_dark_from_reg_query, resolve_dark_mode, AppSettings, SaveError, ThemeMode,
};

#[test]
fn monitor_interval_normalization_allows_only_ui_contract_values() {
    assert_eq!(500, normalize_monitor_interval_ms(500));
    assert_eq!(1000, normalize_monitor_interval_ms(1000));
    assert_eq!(2000, normalize_monitor_interval_ms(2000));
    assert_eq!(1000, normalize_monitor_interval_ms(1));
    assert_eq!(1000, normalize_monitor_interval_ms(1500));
    assert_eq!(1000, normalize_monitor_interval_ms(u32::MAX));
}

#[test]
fn normalizing_an_interval_twice_changes_nothing_more() {
    for ms in [0u32, 1, 499, 500, 1000, 1500, 2000, 86_400_000, u32::MAX] {
        let once = normalize_monitor_interval_ms(ms);
        assert_eq!(normalize_monitor_interval_ms(once), once);
    }
}

#[test]
fn default_settings_match_first_start() {
    let s = AppSettings::default();
    assert_eq!(s.theme_mode, ThemeMode::System);
    assert_eq!(s.accent_palette, 0);
    assert!(!s.reduce_motion);
    assert_eq!(s.launcher_path, "");
    assert!(!s.auto_tray_on_game_minimize);
    assert!(s.close_to_tray);
    assert_eq!(s.last_user_mode, None);
    assert_eq!(s.default_mode, None);
    assert_eq!(s.monitor_interval_ms, 1000);
    assert!(s.update_alert_enabled);
    assert_eq!(s.update_check_interval_ms, 86_400_000);
    assert_eq!(s.last_update_notified_version, None);
}

#[test]
fn normalized_settings_fix_only_the_monitor_interval() {
    let s = AppSettings {
        monitor_interval_ms: 1234,
        default_mode: Some(OptimizeMode::High),
        accent_palette: 3,
        ..AppSettings::default()
    };
    let n = s.normalized();
    assert_eq!(n.monitor_interval_ms, 1000);
    assert_eq!(n.default_mode, Some(OptimizeMode::High));
    assert_eq!(n.accent_palette, 3);
}

#[test]
fn supported_intervals_and_palettes() {
    assert!(is_supported_update_check_interval_ms(21_600_000));
    assert!(is_supported_update_check_interval_ms(604_800_000));
    assert!(!is_supported_update_check_interval_ms(3_600_000));
    assert!(is_supported_accent_palette(0));
    assert!(is_supported_accent_palette(3));
    assert!(!is_supported_accent_palette(4));
}

#[test]
fn dark_mode_asks_the_os_only_for_system_theme() {
    assert!(!resolve_dark_mode(ThemeMode::Light, || panic!("not asked")));
    assert!(resolve_dark_mode(ThemeMode::Dark, || panic!("not asked")));
    assert!(resolve_dark_mode(ThemeMode::System, || true));
    assert!(!resolve_dark_mode(ThemeMode::System, || false));
}

#[test]
fn reg_query_output_decides_the_os_theme() {
    let light = "\r\nHKEY_CURRENT_USER\\Software\\Microsoft\\Windows\\CurrentVersion\\Themes\\Personalize\r\n    AppsUseLightTheme    REG_DWORD    0x1\r\n";
    let dark = "\r\nHKEY_CURRENT_USER\\...\r\n    AppsUseLightTheme    REG_DWORD    0x0\r\n";
    assert!(!os_dark_from_reg_query(true, light));
    assert!(os_dark_from_reg_query(true, dark));
    assert!(os_dark_from_reg_query(false, light));
}

#[test]
fn save_error_messages() {
    assert_eq!(SaveError::PathUnavailable.message(), "설정 저장 경로를 확인할 수 없습니다.");
    assert_eq!(SaveError::CreateDir("denied".into()).message(), "설정 디렉터리 생성 실패: denied");
    assert_eq!(SaveError::Serialize("bad".into()).message(), "설정 직렬화 실패: bad");
    assert_eq!(SaveError::Write("full".into()).message(), "설정 파일 저장 실패: full");
}
