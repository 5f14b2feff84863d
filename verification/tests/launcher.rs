use std::cell::RefCell;

use bdo_optimizer_launcher::launcher::{
    child_matches_verified, classify_user_path_with_roots, drive_scan_candidates, has_dot_component, is_launcher_exe,
    is_reparse_point, launch_game, launch_message, path_file_name, publisher_is_approved,
    spawn_verified_launcher, strip_verbatim_prefix, validated_launcher_candidates, FileIdentity, FILE_ATTRIBUTE_REPARSE_POINT,
    ImageDescriptor, LaunchResult, SignedImage, UserPathDecision, VerificationError,
};

fn classify_user_path(p: &str) -> UserPathDecision {
    classify_user_path_with_roots(p, &[])
}

#[test]
fn accepts_exact_launcher_name() {
    assert!(is_launcher_exe("C:\\Pearlabyss\\BlackDesert\\BlackDesertLauncher.exe"));
}

#[test]
fn accepts_case_insensitive() {
    assert!(is_launcher_exe("C:\\Games\\blackdesertlauncher.exe"));
    assert!(is_launcher_exe("C:\\Games\\BLACKDESERTLAUNCHER.EXE"));
    assert!(is_launcher_exe("BlackDesertLauncher.exe"));
}

#[test]
fn rejects_other_exe() {
    assert!(!is_launcher_exe("C:\\Pearlabyss\\BlackDesert\\BlackDesert64.exe"));
    assert!(!is_launcher_exe("evil.exe"));
    assert!(!is_launcher_exe("notepad.exe"));
}

#[test]
fn rejects_non_exe_extensions() {
    assert!(!is_launcher_exe("evil.bat"));
    assert!(!is_launcher_exe("BlackDesertLauncher.exe.bat"));
    assert!(!is_launcher_exe("BlackDesertLauncher"));
}

#[test]
fn rejects_empty_and_directory() {
    assert!(!is_launcher_exe(""));
    assert!(!is_launcher_exe("C:\\Games\\"));
}

#[test]
fn rejects_similar_name() {
    assert!(!is_launcher_exe("BlackDesertLauncher2.exe"));
    assert!(!is_launcher_exe("MyBlackDesertLauncher.exe"));
}

#[test]
fn classify_empty_or_whitespace_is_ignored() {
    assert!(matches!(classify_user_path(""), UserPathDecision::Ignore));
    assert!(matches!(classify_user_path("   "), UserPathDecision::Ignore));
    assert!(matches!(classify_user_path("\" \""), UserPathDecision::Ignore));
}

#[test]
fn classify_wrong_filename_is_ignored() {
    assert!(matches!(classify_user_path(r"C:\Program Files\BDO\notepad.exe"), UserPathDecision::Ignore));
    assert!(matches!(classify_user_path(r"C:\Program Files\BDO\BlackDesertLauncher.bat"), UserPathDecision::Ignore));
}

#[test]
fn classify_user_profile_launcher_is_used() {
    let decision = classify_user_path(r"C:\Users\alice\Documents\Games\BDO\BlackDesertLauncher.exe");
    assert!(matches!(decision, UserPathDecision::Use(_)));
}

#[test]
fn classify_other_drive_launcher_is_used() {
    let decision = classify_user_path(r"D:\Games\BlackDesert\BlackDesertLauncher.exe");
    assert!(matches!(decision, UserPathDecision::Use(_)));
}

#[test]
fn classify_strips_quotes_and_whitespace() {
    let decision = classify_user_path("  \"D:\\Games\\BDO\\BlackDesertLauncher.exe\"  ");
    match decision {
        UserPathDecision::Use(p) => assert_eq!(p, r"D:\Games\BDO\BlackDesertLauncher.exe"),
        _ => panic!("trim and quote stripping failed"),
    }
}

fn staging_roots() -> Vec<String> {
    vec![r"C:\Users\alice\AppData\Local\Temp".to_string(), r"C:\Users\alice\AppData\Roaming".to_string()]
}

#[test]
fn classify_rejects_staging_dir_launcher() {
    assert!(matches!(
        classify_user_path_with_roots(r"C:\Users\alice\AppData\Local\Temp\stage\BlackDesertLauncher.exe", &staging_roots()),
        UserPathDecision::Ignore
    ));
}

#[test]
fn classify_allows_profile_install_outside_staging() {
    assert!(matches!(
        classify_user_path_with_roots(r"C:\Users\alice\Documents\Games\BDO\BlackDesertLauncher.exe", &staging_roots()),
        UserPathDecision::Use(_)
    ));
    assert!(matches!(
        classify_user_path_with_roots(r"C:\Users\alice\Downloads\BlackDesertLauncher.exe", &staging_roots()),
        UserPathDecision::Use(_)
    ));
}

#[test]
fn drive_scan_filters_missing_and_wrongly_named_candidates() {
    let valid = r"C:\Games\BlackDesertLauncher.exe".to_string();
    let wrong = r"D:\Games\malware.exe".to_string();
    let missing = r"E:\Games\BlackDesertLauncher.exe".to_string();
    let candidates = validated_launcher_candidates(vec![valid.clone(), wrong, missing], |candidate: &str| {
        candidate != r"E:\Games\BlackDesertLauncher.exe"
    });
    assert_eq!(candidates, vec![valid]);
}

#[test]
fn launcher_publisher_allowlist_is_exact_and_case_insensitive() {
    assert!(publisher_is_approved("Pearl abyss Corp"));
    assert!(publisher_is_approved("PEARL ABYSS CORP"));
    assert!(!publisher_is_approved("Pearl abyss Corp Malware"));
    assert!(!publisher_is_approved("Other Signed Vendor"));
}

#[test]
fn child_image_requires_same_final_path_volume_and_file_id() {
    let expected = ImageDescriptor {
        final_path: r"C:\Games\BlackDesertLauncher.exe".to_string(),
        identity: FileIdentity { volume_serial: 7, file_id: [3; 16] },
    };
    assert!(child_matches_verified(&expected, &expected));

    let different_file = ImageDescriptor {
        final_path: expected.final_path.clone(),
        identity: FileIdentity { volume_serial: 7, file_id: [4; 16] },
    };
    assert!(!child_matches_verified(&expected, &different_file));

    let different_path = ImageDescriptor { final_path: r"C:\Games\other.exe".to_string(), identity: expected.identity };
    assert!(!child_matches_verified(&expected, &different_path));
}

#[test]
fn reparse_attribute_and_verbatim_prefix() {
    assert!(is_reparse_point(0x400));
    assert!(is_reparse_point(0x410));
    assert!(!is_reparse_point(0x20));
    assert_eq!(strip_verbatim_prefix(r"\\?\C:\Games\a.exe"), r"C:\Games\a.exe");
    assert_eq!(strip_verbatim_prefix(r"C:\Games\a.exe"), r"C:\Games\a.exe");
}

#[test]
fn file_names_follow_windows_separators() {
    assert_eq!(path_file_name(r"C:\a/b\c.exe").map(|v| v.into_iter().collect::<String>()), Some("c.exe".to_string()));
    assert_eq!(path_file_name(r"C:\a\").map(|v| v.into_iter().collect::<String>()), Some("a".to_string()));
    assert_eq!(path_file_name(r"C:\a\.."), None);
    assert_eq!(path_file_name(""), None);
}

#[test]
fn drive_scan_covers_c_to_z() {
    let c = drive_scan_candidates();
    assert_eq!(c.len(), 24);
    assert_eq!(c[0], r"C:\Pearlabyss\BlackDesert\BlackDesertLauncher.exe");
    assert_eq!(c[23], r"Z:\Pearlabyss\BlackDesert\BlackDesertLauncher.exe");
}

#[test]
fn launching_skips_everything_while_the_game_runs() {
    let r = launch_game("", &[], vec!["x".into()], || true, |_p: &str| panic!("not asked"), |_p: &str| panic!("not spawned"));
    assert_eq!(r, LaunchResult::GameAlreadyRunning);
}

#[test]
fn launching_prefers_an_existing_user_path() {
    let user = r"D:\BDO\BlackDesertLauncher.exe";
    let tried: RefCell<Vec<String>> = RefCell::new(Vec::new());
    let spawn = |p: &str| {
        tried.borrow_mut().push(p.to_string());
        Ok(())
    };
    let r = launch_game(user, &[], vec![r"C:\other\BlackDesertLauncher.exe".into()], || false, |_p: &str| true, spawn);
    assert_eq!(r, LaunchResult::LauncherStarted(user.to_string()));
    assert_eq!(*tried.borrow(), vec![user.to_string()]);
}

#[test]
fn launching_falls_back_in_order_and_reports_the_last_rejection() {
    let fallback = vec!["A".to_string(), "B".to_string(), "C".to_string()];
    let tried: RefCell<Vec<String>> = RefCell::new(Vec::new());
    let spawn = |p: &str| {
        tried.borrow_mut().push(p.to_string());
        if p == "B" { Ok(()) } else { Err(format!("bad {p}")) }
    };
    // The user path does not exist, so the fallbacks are tried.
    let r = launch_game(r"D:\BDO\BlackDesertLauncher.exe", &[], fallback.clone(), || false, |_p: &str| false, &spawn);
    assert_eq!(r, LaunchResult::LauncherStarted("B".into()));
    assert_eq!(*tried.borrow(), vec!["A", "B"]);

    let r = launch_game("", &[], vec!["A".into(), "C".into()], || false, |_p: &str| true, &spawn);
    assert_eq!(r, LaunchResult::LauncherRejected("C".into(), "bad C".into()));
    let r = launch_game("", &[], Vec::new(), || false, |_p: &str| true, &spawn);
    assert_eq!(r, LaunchResult::LauncherNotFound);
}

#[test]
fn launch_messages() {
    assert_eq!(launch_message(&Ok(LaunchResult::GameAlreadyRunning)), "게임이 이미 실행 중입니다. 런처를 실행하지 않습니다.");
    assert_eq!(launch_message(&Ok(LaunchResult::LauncherStarted("X".into()))), "런처 실행됨: X");
}

fn image(path: &str, id: u8) -> ImageDescriptor {
    ImageDescriptor { final_path: path.to_string(), identity: FileIdentity { volume_serial: 1, file_id: [id; 16] } }
}

fn signed(publisher: &str) -> impl FnOnce(&str) -> Result<SignedImage, VerificationError> + '_ {
    move |p: &str| Ok(SignedImage { image: image(p, 3), publisher: publisher.to_string() })
}

#[test]
fn verified_start_resumes_only_the_checked_image() {
    let path = r"C:\Pearlabyss\BlackDesert\BlackDesertLauncher.exe";
    let resumed = RefCell::new(false);
    let r = spawn_verified_launcher(path, signed("PEARL ABYSS CORP"), |i: &ImageDescriptor| Ok(i.clone()),
        |k: &ImageDescriptor| Ok(k.clone()), |_k: ImageDescriptor| { *resumed.borrow_mut() = true; Ok(()) });
    assert!(r.is_ok());
    assert!(*resumed.borrow());

    // Another file runs in the new process: it is not resumed.
    let r = spawn_verified_launcher(path, signed("Pearl abyss Corp"), |i: &ImageDescriptor| Ok(i.clone()),
        |_k: &ImageDescriptor| Ok(image(path, 4)), |_k: ImageDescriptor| panic!("must not run"));
    assert!(matches!(r, Err(VerificationError::ChildImageMismatch)));

    // An unapproved publisher is refused before anything starts.
    let r = spawn_verified_launcher(path, signed("Someone Else"), |_i: &ImageDescriptor| -> Result<ImageDescriptor, VerificationError> { panic!("must not start") },
        |k: &ImageDescriptor| Ok(k.clone()), |_k: ImageDescriptor| Ok(()));
    assert_eq!(r.unwrap_err().message(), "승인되지 않은 Authenticode 발행자: Someone Else");

    // A failed signature check is passed on.
    let r = spawn_verified_launcher(path, |_p: &str| Err(VerificationError::InvalidSignature(-2146762496)),
        |i: &ImageDescriptor| Ok(i.clone()), |k: &ImageDescriptor| Ok(k.clone()), |_k: ImageDescriptor| Ok(()));
    assert_eq!(r.unwrap_err().message(), "Authenticode 서명 검증 실패 (코드 0x800b0100)");
}

#[test]
fn verification_error_messages() {
    assert_eq!(VerificationError::InvalidSignature(0x10).message(), "Authenticode 서명 검증 실패 (코드 0x10)");
    assert_eq!(VerificationError::InvalidSignature(0).message(), "Authenticode 서명 검증 실패 (코드 0x0)");
    assert_eq!(
        VerificationError::Windows { operation: "CreateProcessW".into(), source: "denied".into() }.message(),
        "CreateProcessW 실패: denied"
    );
    assert_eq!(VerificationError::Resume.message(), "중지 상태 런처 재개 실패");
}

#[test]
fn reparse_components_and_parent_segments_are_rejected() {
    assert!(is_reparse_point(FILE_ATTRIBUTE_REPARSE_POINT));
    assert!(has_dot_component(r"C:\Games\..\BlackDesertLauncher.exe"));
}

#[test]
fn dot_components_follow_windows_path_rules() {
    assert!(has_dot_component(r"..\BlackDesertLauncher.exe"));
    assert!(has_dot_component(r".\BlackDesertLauncher.exe"));
    assert!(has_dot_component(r"C:.\BlackDesertLauncher.exe"));
    assert!(has_dot_component("C:/Games/../x.exe"));
    assert!(has_dot_component(r"C:\Games\.."));
    assert!(has_dot_component(r"\\?\C:\Games\.\x.exe"));
    // A `.` inside a normal path is normalized away, and dotted names are names.
    assert!(!has_dot_component(r"C:\Games\.\BlackDesertLauncher.exe"));
    assert!(!has_dot_component(r"C:\Games\...\x.exe"));
    assert!(!has_dot_component(r"C:\Games\..x\.hidden\x.exe"));
    assert!(!has_dot_component(r"C:\Games\BlackDesertLauncher.exe"));
}
