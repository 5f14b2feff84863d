use bdo_optimizer_launcher::settings::AppSettings;
use bdo_optimizer_launcher::update::{
    available_update_check, current_update_check, download_progress_step, ensure_current_check,
    is_allowed_release_url, is_allowed_update_download_url, record_update_alert, sanitize_notes,
    settle_update_check, Error, FoundRelease, PendingUpdates, UpdateProgressEvent, APP_VERSION,
    UPDATE_DOWNLOAD_TIMEOUT_SECS, UPDATE_METADATA_TIMEOUT_SECS,
};

#[test]
fn updater_accepts_only_exact_repository_release_assets() {
    assert!(is_allowed_update_download_url(
        "https://github.com/Lv2dev/bdo-optimizer-launcher/releases/download/v0.3.0/bdo-optimizer-launcher-setup.exe"
    ));
    assert!(!is_allowed_update_download_url(
        "http://github.com/Lv2dev/bdo-optimizer-launcher/releases/download/v0.3.0/setup.exe"
    ));
    assert!(!is_allowed_update_download_url("https://github.com/other/repo/releases/download/v0.3.0/setup.exe"));
    assert!(!is_allowed_update_download_url(
        "https://github.com/Lv2dev/bdo-optimizer-launcher/releases/download/v0.3.0/setup.exe?redirect=evil"
    ));
    assert!(!is_allowed_update_download_url(
        "https://github.com/Lv2dev/bdo-optimizer-launcher/releases/download/v0.3.0/sub/setup.exe"
    ));
}

#[test]
fn update_metadata_trims_and_bounds_remote_notes() {
    let check = available_update_check("0.3.0".to_string(), Some("  변경 사항  ".into()));
    assert_eq!(check.notes.as_deref(), Some("변경 사항"));

    let long = "가".repeat(4_001);
    assert_eq!(sanitize_notes(Some(long)).unwrap().chars().count(), 4_000);
    assert_eq!(sanitize_notes(Some("  ".into())), None);
}

#[test]
fn install_claim_is_single_flight_and_releases_on_drop() {
    let mut state: PendingUpdates<u32> = PendingUpdates::new();
    assert!(state.begin_install().is_ok());
    assert!(matches!(state.begin_install(), Err(Error::InstallInProgress)));
    state.end_install();
    assert!(state.begin_install().is_ok());
}

#[test]
fn stale_update_check_is_rejected_before_callers_apply_side_effects() {
    let mut state: PendingUpdates<u32> = PendingUpdates::new();
    let older = state.begin_check().unwrap();
    let newer = state.begin_check().unwrap();

    let stale_replacement = state.replace_if_current(older, None);
    assert!(matches!(ensure_current_check(stale_replacement), Err(Error::StaleCheck)));
    assert!(state.replace_if_current(newer, None));
}

#[test]
fn metadata_and_artifact_download_use_separate_timeouts() {
    assert_eq!(UPDATE_METADATA_TIMEOUT_SECS, 15);
    assert_eq!(UPDATE_DOWNLOAD_TIMEOUT_SECS, 10 * 60);
    assert!(UPDATE_DOWNLOAD_TIMEOUT_SECS > UPDATE_METADATA_TIMEOUT_SECS);
}

#[test]
fn release_url_allows_only_github_hosts() {
    assert!(is_allowed_release_url("https://github.com/owner/repo/releases/tag/v0.2.0"));
    assert!(is_allowed_release_url("https://api.github.com/repos/o/r/releases/latest"));
    assert!(!is_allowed_release_url("http://github.com/owner/repo"));
    assert!(!is_allowed_release_url("https://github.com.evil.com/x"));
    assert!(!is_allowed_release_url("https://github.com@evil.com/x"));
    assert!(!is_allowed_release_url("file:///c:/windows/system32"));
}

const ASSET: &str = "https://github.com/Lv2dev/bdo-optimizer-launcher/releases/download/v0.3.0/setup.exe";

fn release(update: u32, url: &str) -> FoundRelease<u32> {
    FoundRelease { update, version: "0.3.0".into(), download_url: url.into(), notes: Some(" notes ".into()) }
}

#[test]
fn settling_a_check_stores_the_release_or_reports_why_not() {
    let mut state: PendingUpdates<u32> = PendingUpdates::new();
    let g = state.begin_check().unwrap();
    let check = settle_update_check(&mut state, g, Some(release(7, ASSET))).unwrap();
    assert_eq!(check.status_text, "새 버전 0.3.0 사용 가능.");
    assert!(check.update_available);
    assert_eq!(check.notes.as_deref(), Some("notes"));
    assert_eq!(state.pending, Some(7));

    let g = state.begin_check().unwrap();
    assert!(matches!(
        settle_update_check(&mut state, g, Some(release(8, "https://evil.example/setup.exe"))),
        Err(Error::InvalidDownloadUrl)
    ));
    assert_eq!(state.pending, None);

    let g = state.begin_check().unwrap();
    let check = settle_update_check(&mut state, g, None).unwrap();
    assert_eq!(check, current_update_check());
    assert_eq!(check.status_text, format!("최신 버전입니다. ({APP_VERSION})"));

    state.pending = Some(9);
    assert!(matches!(settle_update_check(&mut state, g - 1, None), Err(Error::StaleCheck)));
    assert_eq!(state.pending, Some(9));
}

#[test]
fn taking_and_restoring_the_pending_update() {
    let mut state: PendingUpdates<u32> = PendingUpdates::new();
    state.pending = Some(1);
    assert_eq!(state.take(), Some(1));
    assert_eq!(state.take(), None);
    state.restore_if_empty(1);
    assert_eq!(state.pending, Some(1));
    state.restore_if_empty(2);
    assert_eq!(state.pending, Some(1));
}

#[test]
fn check_numbers_run_out_at_the_top() {
    let mut state: PendingUpdates<u32> = PendingUpdates::new();
    state.check_generation = u64::MAX;
    assert!(matches!(state.begin_check(), Err(Error::CheckGenerationExhausted)));
}

#[test]
fn download_progress_announces_the_start_once_and_saturates() {
    let (started, total, events) = download_progress_step(false, 0, 10, Some(100));
    assert!(started);
    assert_eq!(total, 10);
    assert_eq!(
        events,
        vec![
            UpdateProgressEvent::Started { content_length: Some(100) },
            UpdateProgressEvent::Progress { downloaded: 10, content_length: Some(100) },
        ]
    );
    let (_, total, events) = download_progress_step(true, u64::MAX - 1, 10, None);
    assert_eq!(total, u64::MAX);
    assert_eq!(events, vec![UpdateProgressEvent::Progress { downloaded: u64::MAX, content_length: None }]);
}

#[test]
fn an_alert_is_recorded_once_per_version() {
    let mut settings = AppSettings::default();
    let check = available_update_check("0.3.0".into(), None);
    assert!(record_update_alert(&mut settings, &check));
    assert_eq!(settings.last_update_notified_version.as_deref(), Some("0.3.0"));
    assert!(!record_update_alert(&mut settings, &check));
    settings.update_alert_enabled = false;
    assert!(!record_update_alert(&mut settings, &available_update_check("0.4.0".into(), None)));
    assert!(!record_update_alert(&mut AppSettings::default(), &current_update_check()));
}

#[test]
fn update_error_messages() {
    assert_eq!(Error::Updater("timeout".into()).message(), "업데이트 처리 실패: timeout");
    assert_eq!(Error::StaleCheck.message(), "더 최신 업데이트 확인 요청이 시작되어 이전 결과를 폐기했습니다.");
    assert_eq!(Error::ExplorerSpawn("denied".into()).message(), "브라우저 실행 실패: denied");
}
