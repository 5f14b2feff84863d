use bdo_optimizer_launcher::paths::{
    high_risk_user_writable_roots, is_high_risk_user_writable_path, join_dir, normalize_path_for_prefix,
    path_from_windows_dir_api, path_is_same_or_child, system32_path, windows_path,
};

#[test]
fn windows_path_returns_absolute_explorer_path() {
    let path = windows_path(None, "explorer.exe");
    assert!(path.as_bytes()[1] == b':' && path.as_bytes()[2] == b'\\');
    assert!(path.ends_with("explorer.exe"));
    let path = windows_path(Some(r"D:\WINNT".into()), "explorer.exe");
    assert_eq!(path, r"D:\WINNT\explorer.exe");
}

#[test]
fn system32_path_uses_the_reported_directory_and_never_a_bare_name() {
    assert_eq!(system32_path(None, "schtasks.exe"), r"C:\Windows\System32\schtasks.exe");
    assert_eq!(system32_path(Some(r"E:\Win\System32".into()), "reg.exe"), r"E:\Win\System32\reg.exe");
    assert_eq!(join_dir(r"C:\x\", "y"), r"C:\x\y");
}

#[test]
fn windows_directory_api_results() {
    let text: Vec<u16> = r"C:\Windows".encode_utf16().collect();
    let mut buf = text.clone();
    buf.resize(260, 0);
    assert_eq!(path_from_windows_dir_api(text.len() as u32, &buf), Some(r"C:\Windows".to_string()));
    assert_eq!(path_from_windows_dir_api(0, &buf), None);
    assert_eq!(path_from_windows_dir_api(260, &buf), None);
}

#[test]
fn path_is_same_or_child_normalizes_separators_and_case() {
    let root = r"C:\Users\alice";
    assert!(path_is_same_or_child(r"C:\Users\Alice\Downloads\evil.exe", root));
    assert!(path_is_same_or_child("C:/Users/alice/Desktop/x.exe", root));
    assert!(path_is_same_or_child(r"C:\Users\alice\", root));
    assert!(!path_is_same_or_child(r"C:\Program Files\BDO\launcher.exe", root));
    assert!(!path_is_same_or_child(r"C:\Users\alice2\file.exe", root));
}

#[test]
fn is_high_risk_user_writable_path_matches_any_root() {
    let roots = vec![r"C:\Users\alice".to_string(), r"C:\Users\alice\AppData\Local\Temp".to_string()];
    assert!(is_high_risk_user_writable_path(r"C:\Users\alice\Downloads\BlackDesertLauncher.exe", &roots));
    assert!(is_high_risk_user_writable_path(r"C:\Users\alice\AppData\Local\Temp\stage\loader.exe", &roots));
    assert!(!is_high_risk_user_writable_path(r"D:\Games\BlackDesert\BlackDesertLauncher.exe", &roots));
    assert!(!is_high_risk_user_writable_path(r"C:\Users\alice\anything.exe", &[]));
}

#[test]
fn an_empty_root_matches_nothing() {
    assert!(!path_is_same_or_child(r"C:\anything", ""));
    assert!(!path_is_same_or_child(r"C:\anything", r"\\"));
    assert_eq!(normalize_path_for_prefix("C:/Users/ALICE//").into_iter().collect::<String>(), r"c:\users\alice");
}

#[test]
fn roots_keep_only_set_non_empty_values_in_order() {
    let roots = high_risk_user_writable_roots(vec![
        Some(r"C:\Users\alice".into()),
        None,
        Some(String::new()),
        Some(r"C:\Temp".into()),
    ]);
    assert_eq!(roots, vec![r"C:\Users\alice".to_string(), r"C:\Temp".to_string()]);
}
