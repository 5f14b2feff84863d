use std::cell::{Cell, RefCell};

use bdo_optimizer_launcher::autostart::{
    build_tr_value_for_exe, dacl_has_untrusted_write_access, has_dangerous_write_rights,
    query_autostart, register_autostart, registration_matches,
    security_descriptor_has_untrusted_write_access, task_deletion_is_confirmed, task_file_path,
    unregister_autostart, unregister_with, validate_autostart_exe_path_for_roots, validate_protected_path,
    verify_registration_with, Error, FILE_GENERIC_WRITE, GENERIC_ALL, TASK_NAME,
};
use bdo_optimizer_launcher::cmd::CommandOutput;
use bdo_optimizer_launcher::task_xml::parse_task_action;

fn roots(items: &[&str]) -> Vec<String> {
    items.iter().map(|s| s.to_string()).collect()
}

#[test]
fn autostart_rejects_user_profile_exe_for_highest_task() {
    let err = validate_autostart_exe_path_for_roots(
        r"C:\Users\alice\Downloads\bdo-optimizer-launcher.exe",
        &roots(&[r"C:\Users\alice"]),
    )
    .unwrap_err();
    assert!(matches!(err, Error::UntrustedAutostartPath(_)));
}

#[test]
fn autostart_allows_program_files_exe_for_highest_task() {
    validate_autostart_exe_path_for_roots(
        r"C:\Program Files\BDO Optimizer\bdo-optimizer-launcher.exe",
        &roots(&[r"C:\Users\alice", r"C:\Users\alice\AppData\Local\Temp"]),
    )
    .unwrap();
}

const DELETE: u32 = 0x0001_0000;
const WRITE_DAC: u32 = 0x0004_0000;
const WRITE_OWNER: u32 = 0x0008_0000;

#[test]
fn autostart_dacl_rejects_effective_write_delete_or_owner_rights() {
    assert!(has_dangerous_write_rights(FILE_GENERIC_WRITE));
    assert!(has_dangerous_write_rights(DELETE));
    assert!(has_dangerous_write_rights(WRITE_DAC));
    assert!(has_dangerous_write_rights(WRITE_OWNER));
    assert!(has_dangerous_write_rights(GENERIC_ALL));
    assert!(!has_dangerous_write_rights(0x0012_00a9));
}

fn sid(subs: &[u32]) -> Vec<u8> {
    let mut b = vec![1u8, subs.len() as u8, 0, 0, 0, 0, 0, 5];
    for s in subs {
        b.extend_from_slice(&s.to_le_bytes());
    }
    b
}

fn allow(mask: u32, who: &[u8]) -> Vec<u8> {
    let size = (8 + who.len()) as u16;
    let mut b = vec![0u8, 0];
    b.extend_from_slice(&size.to_le_bytes());
    b.extend_from_slice(&mask.to_le_bytes());
    b.extend_from_slice(who);
    b
}

const GA: u32 = 0x1000_0000;
const GW: u32 = 0x4000_0000;
const GRGX: u32 = 0x8000_0000 | 0x2000_0000;

fn system() -> Vec<u8> {
    sid(&[18])
}
fn admins() -> Vec<u8> {
    sid(&[32, 544])
}
fn users() -> Vec<u8> {
    sid(&[32, 545])
}

#[test]
fn autostart_acl_rejects_untrusted_owner_and_user_specific_write_ace() {
    let trusted = |s: &[u8]| s == system().as_slice() || s == admins().as_slice();
    // Owner BUILTIN\Users.
    let dacl = vec![allow(GA, &system()), allow(GA, &admins()), allow(GRGX, &users())];
    assert!(security_descriptor_has_untrusted_write_access(Some(&users()), Some(&dacl), &trusted));
    // A user SID with generic write.
    let user = sid(&[21, 1, 2, 3, 1001]);
    let dacl = vec![allow(GA, &system()), allow(GA, &admins()), allow(GW, &user)];
    assert!(security_descriptor_has_untrusted_write_access(Some(&system()), Some(&dacl), &trusted));
    // Users may only read and execute.
    let dacl = vec![allow(GA, &system()), allow(GA, &admins()), allow(GRGX, &users())];
    assert!(!security_descriptor_has_untrusted_write_access(Some(&system()), Some(&dacl), &trusted));
    // No owner or no DACL counts as writable.
    assert!(security_descriptor_has_untrusted_write_access(None, Some(&dacl), &trusted));
    assert!(security_descriptor_has_untrusted_write_access(Some(&system()), None, &trusted));
}

#[test]
fn dacl_entries_that_are_malformed_or_inherit_only() {
    let trusted = |s: &[u8]| s == system().as_slice();
    // A compound entry is malformed.
    let mut compound = allow(GRGX, &system());
    compound[0] = 4;
    assert!(dacl_has_untrusted_write_access(&[compound], &trusted));
    // An inherit-only entry is skipped.
    let mut inherit_only = allow(GA, &users());
    inherit_only[1] = 0x08;
    assert!(!dacl_has_untrusted_write_access(&[inherit_only], &trusted));
    // A deny entry is skipped.
    let mut deny = allow(GA, &users());
    deny[0] = 1;
    assert!(!dacl_has_untrusted_write_access(&[deny], &trusted));
}

#[test]
fn build_tr_value_for_exe_rejects_untrusted_location_before_schtasks() {
    let err = build_tr_value_for_exe(
        r"C:\Users\alice\Desktop\bdo-optimizer-launcher.exe",
        false,
        &roots(&[r"C:\Users\alice"]),
    )
    .unwrap_err();
    assert!(matches!(err, Error::UntrustedAutostartPath(_)));
}

#[test]
fn build_tr_value_quotes_the_exe_and_adds_the_tray_flag() {
    let exe = r"C:\Program Files\BDO\app.exe";
    assert_eq!(build_tr_value_for_exe(exe, false, &[]).unwrap(), format!("\"{exe}\""));
    assert_eq!(build_tr_value_for_exe(exe, true, &[]).unwrap(), format!("\"{exe}\" --minimized"));
    assert!(matches!(build_tr_value_for_exe("C:\\a\"b.exe", false, &[]), Err(Error::QuoteInPath)));
}

#[test]
fn registration_verification_and_unregister_precheck_are_behavioral() {
    let cleanup_calls = Cell::new(0);
    assert!(verify_registration_with(true, || (true, true), || {
        cleanup_calls.set(99);
        Ok(())
    })
    .is_ok());
    assert_eq!(cleanup_calls.get(), 0);
    assert!(verify_registration_with(true, || (true, false), || {
        cleanup_calls.set(cleanup_calls.get() + 1);
        Ok(())
    })
    .is_err());
    assert_eq!(cleanup_calls.get(), 1);

    let delete_calls = Cell::new(0);
    assert!(matches!(
        unregister_with(|| false, || {
            delete_calls.set(delete_calls.get() + 1);
            Ok(())
        }),
        Err(Error::TaskNotFound)
    ));
    assert_eq!(delete_calls.get(), 0);
    assert!(unregister_with(|| true, || {
        delete_calls.set(delete_calls.get() + 1);
        Ok(())
    })
    .is_ok());
    assert_eq!(delete_calls.get(), 1);

    assert!(registration_matches(true, false, false));
    assert!(registration_matches(true, true, true));
    assert!(!registration_matches(false, true, true));
    assert!(!registration_matches(true, false, true));
}

#[test]
fn registration_verification_reports_rollback_failure() {
    let error = verify_registration_with(true, || (true, false), || {
        Err(Error::UnregisterFailed("rollback denied".to_string()))
    })
    .unwrap_err();
    assert!(matches!(error, Error::RegisterFailed(ref detail) if
        detail.contains("정리에도 실패") && detail.contains("rollback denied")));
}

#[test]
fn task_deletion_requires_query_and_task_file_absence() {
    assert!(task_deletion_is_confirmed(false, false));
    assert!(!task_deletion_is_confirmed(true, false));
    assert!(!task_deletion_is_confirmed(false, true));
    assert!(!task_deletion_is_confirmed(true, true));
}

#[test]
fn task_xml_action_parser_keeps_command_and_exact_arguments_separate() {
    let xml = r#"<Task><Triggers><LogonTrigger /></Triggers>
    <Principals><Principal><RunLevel>HighestAvailable</RunLevel></Principal></Principals>
    <Settings><Enabled>true</Enabled></Settings><Actions><Exec>
      <Command>"C:\Program Files\BDO Optimizer\bdo-optimizer-launcher.exe"</Command>
      <Arguments>--minimized</Arguments>
    </Exec></Actions></Task>"#;
    assert_eq!(
        parse_task_action(xml),
        Some((r"C:\Program Files\BDO Optimizer\bdo-optimizer-launcher.exe".to_string(), "--minimized".to_string()))
    );
}

#[test]
fn task_xml_rejects_limited_or_disabled_non_logon_tasks() {
    for xml in [
        r#"<Task><Triggers><LogonTrigger /></Triggers><Principals><Principal><RunLevel>LeastPrivilege</RunLevel></Principal></Principals><Settings><Enabled>true</Enabled></Settings><Actions><Exec><Command>C:\app.exe</Command></Exec></Actions></Task>"#,
        r#"<Task><Triggers><CalendarTrigger /></Triggers><Principals><Principal><RunLevel>HighestAvailable</RunLevel></Principal></Principals><Settings><Enabled>true</Enabled></Settings><Actions><Exec><Command>C:\app.exe</Command></Exec></Actions></Task>"#,
        r#"<Task><Triggers><LogonTrigger><Enabled>false</Enabled></LogonTrigger></Triggers><Principals><Principal><RunLevel>HighestAvailable</RunLevel></Principal></Principals><Settings><Enabled>true</Enabled></Settings><Actions><Exec><Command>C:\app.exe</Command></Exec></Actions></Task>"#,
        r#"<Task><Triggers><LogonTrigger /></Triggers><Principals><Principal><RunLevel>HighestAvailable</RunLevel></Principal></Principals><Settings><Enabled>false</Enabled></Settings><Actions><Exec><Command>C:\app.exe</Command></Exec></Actions></Task>"#,
    ] {
        assert_eq!(parse_task_action(xml), None);
    }
}

#[test]
fn task_xml_accepts_escaped_quotes_and_rejects_unbalanced_quotes() {
    let valid = r#"<Task><Triggers><LogonTrigger /></Triggers><Principals><Principal><RunLevel>HighestAvailable</RunLevel></Principal></Principals><Settings /><Actions Context="Author"><Exec><Command>&quot;C:\Program Files\app.exe&quot;</Command></Exec></Actions></Task>"#;
    assert_eq!(parse_task_action(valid), Some((r"C:\Program Files\app.exe".to_string(), String::new())));

    for command in [r#""C:\app.exe"#, r#"C:\app.exe""#, r#""C:\"app.exe""#] {
        let xml = valid.replace("&quot;C:\\Program Files\\app.exe&quot;", command);
        assert_eq!(parse_task_action(&xml), None);
    }
}

#[test]
fn task_xml_rejects_extra_triggers_and_actions() {
    let mixed_trigger = r#"<Task><Triggers><LogonTrigger /><CalendarTrigger /></Triggers><Principals><Principal><RunLevel>HighestAvailable</RunLevel></Principal></Principals><Settings /><Actions><Exec><Command>C:\app.exe</Command></Exec></Actions></Task>"#;
    let multiple_actions = r#"<Task><Triggers><LogonTrigger /></Triggers><Principals><Principal><RunLevel>HighestAvailable</RunLevel></Principal></Principals><Settings /><Actions><Exec><Command>C:\app.exe</Command></Exec><Exec><Command>C:\other.exe</Command></Exec></Actions></Task>"#;
    assert_eq!(parse_task_action(mixed_trigger), None);
    assert_eq!(parse_task_action(multiple_actions), None);
}

const REGISTERED: &str = r#"<Task><Triggers><LogonTrigger /></Triggers><Principals><Principal><RunLevel>HighestAvailable</RunLevel></Principal></Principals><Settings /><Actions><Exec><Command>"C:\Program Files\BDO\app.exe"</Command><Arguments>--minimized</Arguments></Exec></Actions></Task>"#;

fn out(success: bool, stdout: &str) -> Result<CommandOutput, String> {
    Ok(CommandOutput { success, stdout: stdout.as_bytes().to_vec(), stderr: Vec::new() })
}

#[test]
fn query_reads_the_task_xml_and_checks_the_program() {
    let schtasks = |args: Vec<String>| {
        assert_eq!(args, vec!["/query", "/tn", TASK_NAME, "/xml"]);
        out(true, REGISTERED)
    };
    assert_eq!(query_autostart(&schtasks, |p: String| p == r"C:\Program Files\BDO\app.exe"), (true, true));
    assert_eq!(query_autostart(&schtasks, |_p: String| false), (false, false));
    let missing = |_args: Vec<String>| out(false, "");
    assert_eq!(query_autostart(&missing, |_p: String| true), (false, false));
}

#[test]
fn registering_creates_the_logon_task_and_checks_it() {
    let calls: RefCell<Vec<Vec<String>>> = RefCell::new(Vec::new());
    let schtasks = |args: Vec<String>| {
        let query = args[0] == "/query";
        calls.borrow_mut().push(args);
        // After a deletion the task can no longer be queried.
        out(!query, "")
    };
    let exe = r"C:\Program Files\BDO\app.exe".to_string();
    let here = || -> Result<(String, String), Error> { Ok((exe.clone(), r"C:\Program Files".to_string())) };
    let protected = |_p: &str| -> Result<bool, Error> { Ok(false) };
    assert!(register_autostart(true, Ok(exe.clone()), here(), &protected, &schtasks, || (true, true), || false).is_ok());
    assert_eq!(
        calls.borrow()[0],
        vec!["/create", "/tn", TASK_NAME, "/tr", "\"C:\\Program Files\\BDO\\app.exe\" --minimized", "/sc", "onlogon", "/rl", "HIGHEST", "/f"]
    );
    // A registration that reads back wrong is removed again.
    calls.borrow_mut().clear();
    let r = register_autostart(true, Ok(exe.clone()), here(), &protected, &schtasks, || (true, false), || false);
    assert!(matches!(r, Err(Error::RegisterFailed(ref m)) if m == "작업 등록 확인 실패."));
    assert_eq!(calls.borrow()[1], vec!["/delete", "/tn", TASK_NAME, "/f"]);
    // The error of locating the executable is passed on.
    let r = register_autostart(false, Err(Error::CurrentExe("gone".into())), here(), &protected, &schtasks, || (true, false), || false);
    assert!(matches!(r, Err(Error::CurrentExe(_))));
    let r = register_autostart(
        false,
        Ok(exe.clone()),
        Err(Error::ProgramFiles("no folder".into())),
        &protected,
        &schtasks,
        || (true, false),
        || false,
    );
    assert!(matches!(r, Err(Error::ProgramFiles(_))));
    // An executable outside Program Files, or below a writable directory, is refused
    // before anything is registered.
    calls.borrow_mut().clear();
    let profile = r"C:\Users\alice\AppData\Local\app.exe".to_string();
    let r = register_autostart(
        false,
        Ok(profile.clone()),
        Ok((profile, r"C:\Program Files".to_string())),
        &protected,
        &schtasks,
        || (true, false),
        || false,
    );
    assert!(matches!(r, Err(Error::UntrustedAutostartPath(_))));
    let writable = |p: &str| -> Result<bool, Error> { Ok(p == r"C:\Program Files\BDO") };
    let r = register_autostart(false, Ok(exe.clone()), here(), &writable, &schtasks, || (true, false), || false);
    assert!(matches!(r, Err(Error::WritableDacl(ref p)) if p == r"C:\Program Files\BDO"));
    assert!(calls.borrow().is_empty());
}

#[test]
fn unregistering_needs_an_existing_task_and_confirms_its_removal() {
    let absent = |_args: Vec<String>| out(false, "");
    assert!(matches!(unregister_autostart(&absent, || false), Err(Error::TaskNotFound)));

    let queries = Cell::new(0);
    let schtasks = |args: Vec<String>| {
        if args[0] == "/query" {
            queries.set(queries.get() + 1);
            // Found before the deletion, gone after it.
            out(queries.get() == 1, "")
        } else {
            out(true, "")
        }
    };
    assert!(unregister_autostart(&schtasks, || false).is_ok());
    queries.set(0);
    let r = unregister_autostart(&schtasks, || true);
    assert!(matches!(r, Err(Error::UnregisterFailed(ref m)) if m == "삭제 명령 성공 후에도 작업이 남아 있습니다."));
}

#[test]
fn task_file_lives_in_the_scheduler_store() {
    assert_eq!(task_file_path(Some(r"D:\Win".into())), format!(r"D:\Win\System32\Tasks\{TASK_NAME}"));
}

#[test]
fn protected_path_walks_up_to_program_files() {
    let root = r"C:\Program Files";
    let asked = RefCell::new(Vec::new());
    let none_writable = |p: &str| -> Result<bool, Error> {
        asked.borrow_mut().push(p.to_string());
        Ok(false)
    };
    assert!(validate_protected_path(r"C:\Program Files\BDO\app.exe", root, &none_writable).is_ok());
    assert_eq!(
        *asked.borrow(),
        vec![r"C:\Program Files\BDO\app.exe".to_string(), r"C:\Program Files\BDO".to_string(), r"C:\Program Files".to_string()]
    );

    let writable_dir = |p: &str| -> Result<bool, Error> { Ok(p == r"C:\Program Files\BDO") };
    match validate_protected_path(r"C:\Program Files\BDO\app.exe", root, &writable_dir) {
        Err(Error::WritableDacl(p)) => assert_eq!(p, r"C:\Program Files\BDO"),
        other => panic!("unexpected {other:?}"),
    }

    let failing = |_p: &str| -> Result<bool, Error> { Err(Error::Acl("bad ace".to_string())) };
    match validate_protected_path(r"C:\Program Files\BDO\app.exe", root, &failing) {
        Err(Error::Acl(m)) => assert_eq!(m, "bad ace"),
        other => panic!("unexpected {other:?}"),
    }

    let never_called = |_p: &str| -> Result<bool, Error> { panic!("outside the root nothing is read") };
    match validate_protected_path(r"C:\Users\alice\AppData\app.exe", root, &never_called) {
        Err(Error::UntrustedAutostartPath(p)) => assert_eq!(p, r"C:\Users\alice\AppData\app.exe"),
        other => panic!("unexpected {other:?}"),
    }
    // A sibling whose name merely starts like Program Files is outside it.
    assert!(matches!(
        validate_protected_path(r"C:\Program Files Evil\app.exe", root, &none_writable),
        Err(Error::UntrustedAutostartPath(_))
    ));
}

#[test]
fn entries_shorter_than_their_header_or_size_count_as_writable() {
    let trusted = |s: &[u8]| s == system().as_slice();
    // Shorter than the four-byte header.
    assert!(dacl_has_untrusted_write_access(&[vec![0u8, 0, 3]], &trusted));
    // Declares more bytes than it holds.
    let mut cut = allow(GRGX, &system());
    cut.truncate(10);
    assert!(dacl_has_untrusted_write_access(&[cut.clone()], &trusted));
    let dacl = vec![allow(GA, &system()), cut];
    assert!(security_descriptor_has_untrusted_write_access(Some(&system()), Some(&dacl), &trusted));
    // A well-formed trusted list is fine.
    assert!(!dacl_has_untrusted_write_access(&[allow(GA, &system())], &trusted));
}
