use bdo_optimizer_launcher::monitor::{
    bytes_to_mb, counter_instance, filetime_to_u64, parse_instance, split_multi_sz, Monitor,
};

#[test]
fn parse_instance_splits_group_and_cpu() {
    assert_eq!(parse_instance("0,0"), Some((0, 0)));
    assert_eq!(parse_instance("0,5"), Some((0, 5)));
    assert_eq!(parse_instance("1,12"), Some((1, 12)));
}

#[test]
fn parse_instance_rejects_total_and_partial_instances() {
    assert_eq!(parse_instance("_Total"), None);
    assert_eq!(parse_instance("0,_total"), None);
    assert_eq!(parse_instance(""), None);
    assert_eq!(parse_instance("3"), None);
}

#[test]
fn multi_sz_and_localized_counter_instance_are_parsed() {
    let buffer = [b'a' as u16, 0, b'b' as u16, b'c' as u16, 0, 0];
    assert_eq!(split_multi_sz(&buffer), vec!["a", "bc"]);
    assert_eq!(counter_instance(r"\프로세서 정보(0,7)\% 프로세서 시간").as_deref(), Some("0,7"));
}

#[test]
fn counter_paths_without_an_instance() {
    assert_eq!(counter_instance(r"\Memory\Available MBytes"), None);
    assert_eq!(split_multi_sz(&[]), Vec::<String>::new());
}

#[test]
fn filetime_and_megabytes() {
    assert_eq!(filetime_to_u64(1, 2), 0x1_0000_0002);
    assert_eq!(filetime_to_u64(u32::MAX, u32::MAX), u64::MAX);
    assert_eq!(bytes_to_mb(3 * 1024 * 1024 + 5), 3);
}

#[test]
fn rebinding_forgets_the_previous_samples() {
    let mut m = Monitor::new(8, 16384, 8192);
    assert!(m.rebind(Some(10)));
    m.prev_instant_ms = Some(5);
    m.prev_io_read = Some(7);
    assert!(!m.rebind(Some(10)));
    assert_eq!(m.prev_instant_ms, Some(5));
    assert!(m.rebind(Some(11)));
    assert_eq!(m.prev_instant_ms, None);
    assert_eq!(m.prev_io_read, None);
    assert_eq!(m.total_ram_mb, 16384);
}
