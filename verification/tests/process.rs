use std::cell::RefCell;

use bdo_optimizer_launcher::process::{apply_optimization, find_process_id, Error};
use bdo_optimizer_launcher::process::{
    calc_high_affinity, calc_low_power_affinity, calc_normal_affinity, classify_cores,
    priority_class_to_mode, CpuInfo, HIGH_PRIORITY_CLASS, IDLE_PRIORITY_CLASS, NORMAL_PRIORITY_CLASS,
};
use bdo_optimizer_launcher::schedule::OptimizeMode;

#[test]
fn priority_class_to_mode_maps_known_values() {
    assert_eq!(priority_class_to_mode(HIGH_PRIORITY_CLASS), Some(OptimizeMode::High));
    assert_eq!(priority_class_to_mode(NORMAL_PRIORITY_CLASS), Some(OptimizeMode::Normal));
    assert_eq!(priority_class_to_mode(IDLE_PRIORITY_CLASS), Some(OptimizeMode::LowPower));
    assert_eq!(priority_class_to_mode(0), None);
    assert_eq!(priority_class_to_mode(0x4000), None);
}

fn info(physical: u32, logical: u32) -> CpuInfo {
    CpuInfo { physical_cores: physical, logical_threads: logical, p_core_mask: 0, e_core_mask: 0, has_hybrid: false }
}

fn hybrid_info(p_mask: usize, e_mask: usize, physical: u32, logical: u32) -> CpuInfo {
    CpuInfo { physical_cores: physical, logical_threads: logical, p_core_mask: p_mask, e_core_mask: e_mask, has_hybrid: true }
}

#[test]
fn high_affinity_smt2_uses_even_bits() {
    assert_eq!(calc_high_affinity(&info(4, 8)), 0b01010101);
}

#[test]
fn high_affinity_smt1_uses_consecutive_bits() {
    assert_eq!(calc_high_affinity(&info(8, 8)), 0xFF);
}

#[test]
fn high_affinity_zero_physical_returns_zero() {
    assert_eq!(calc_high_affinity(&info(0, 8)), 0);
}

#[test]
fn high_affinity_six_physical_smt2() {
    assert_eq!(calc_high_affinity(&info(6, 12)), 0b010101010101);
}

#[test]
fn normal_affinity_full_bitmask() {
    assert_eq!(calc_normal_affinity(&info(4, 8)), 0xFF);
    assert_eq!(calc_normal_affinity(&info(8, 16)), 0xFFFF);
    assert_eq!(calc_normal_affinity(&info(1, 1)), 0b1);
}

#[test]
fn normal_affinity_zero_logical() {
    assert_eq!(calc_normal_affinity(&info(0, 0)), 0);
}

#[test]
fn normal_affinity_clamps_at_64() {
    assert_eq!(calc_normal_affinity(&info(32, 64)), usize::MAX);
}

#[test]
fn low_power_smt2_uses_last_two_bits() {
    assert_eq!(calc_low_power_affinity(&info(4, 8)), 0b11000000);
}

#[test]
fn low_power_smt1_uses_last_bit() {
    assert_eq!(calc_low_power_affinity(&info(8, 8)), 0b10000000);
}

#[test]
fn low_power_single_logical_returns_bit_zero() {
    assert_eq!(calc_low_power_affinity(&info(1, 1)), 1);
}

#[test]
fn low_power_two_logical_smt2() {
    assert_eq!(calc_low_power_affinity(&info(1, 2)), 0b11);
}

#[test]
fn low_power_zero_logical_treated_as_minimal() {
    assert_eq!(calc_low_power_affinity(&info(0, 0)), 1);
}

#[test]
fn hybrid_high_returns_p_core_mask_only() {
    let p_mask: usize = 0xFFFF;
    let e_mask: usize = 0xFF_0000;
    let i = hybrid_info(p_mask, e_mask, 16, 24);
    assert_eq!(calc_high_affinity(&i), p_mask);
}

#[test]
fn hybrid_low_power_returns_e_core_mask_only() {
    let p_mask: usize = 0xFFFF;
    let e_mask: usize = 0xFF_0000;
    let i = hybrid_info(p_mask, e_mask, 16, 24);
    assert_eq!(calc_low_power_affinity(&i), e_mask);
}

#[test]
fn hybrid_normal_includes_all_threads() {
    let i = hybrid_info(0xFFFF, 0xFF_0000, 16, 24);
    assert_eq!(calc_normal_affinity(&i), 0xFF_FFFF);
}

#[test]
fn hybrid_14900k_simulation() {
    let p_mask: usize = 0xFFFF;
    let e_mask: usize = 0xFFFF_0000;
    let i = hybrid_info(p_mask, e_mask, 24, 32);
    assert_eq!(calc_high_affinity(&i), p_mask);
    assert_eq!(calc_low_power_affinity(&i), e_mask);
    assert_eq!(calc_normal_affinity(&i), 0xFFFF_FFFF);
}

#[test]
fn non_hybrid_ryzen_uses_legacy_logic() {
    let i = info(8, 16);
    assert_eq!(calc_high_affinity(&i), 0x5555);
    assert_eq!(calc_low_power_affinity(&i), 0xC000);
    assert_eq!(calc_normal_affinity(&i), 0xFFFF);
}

#[test]
fn hybrid_with_zero_p_mask_falls_back_to_legacy() {
    let i = hybrid_info(0, 0xFF_0000, 16, 24);
    assert_eq!(calc_high_affinity(&i), 0xFFFF);
}

#[test]
fn hybrid_with_zero_e_mask_falls_back_to_legacy() {
    let i = hybrid_info(0xFFFF, 0, 16, 24);
    assert_eq!(calc_low_power_affinity(&i), 0x800000);
}

#[test]
fn classify_cores_empty_returns_zero() {
    assert_eq!(classify_cores(&[]), (0, 0, 0, 0));
}

#[test]
fn classify_cores_non_hybrid_all_become_p() {
    let entries = vec![(0, 0b0011), (0, 0b1100)];
    assert_eq!(classify_cores(&entries), (0xF, 0, 2, 4));
}

#[test]
fn classify_cores_alder_lake_13700k() {
    let mut entries = Vec::new();
    for i in 0..8 {
        let mask = 0b11u64 << (i * 2);
        entries.push((1u8, mask));
    }
    for i in 0..8 {
        let mask = 1u64 << (16 + i);
        entries.push((0u8, mask));
    }
    let (p, e, phys, log) = classify_cores(&entries);
    assert_eq!(p, 0xFFFF, "P-core mask = bits 0..15");
    assert_eq!(e, 0xFF_0000, "E-core mask = bits 16..23");
    assert_eq!(phys, 16);
    assert_eq!(log, 24);
}

#[test]
fn classify_cores_three_class_only_top_is_p() {
    let entries = vec![(2u8, 0xFF00), (1u8, 0x00F0), (0u8, 0x000F)];
    let (p, e, phys, log) = classify_cores(&entries);
    assert_eq!(p, 0xFF00, "only the top class is P");
    assert_eq!(e, 0x00FF, "the other classes add up to the E mask");
    assert_eq!(phys, 3);
    assert_eq!(log, 8 + 4 + 4);
}

#[test]
fn classify_cores_single_core() {
    assert_eq!(classify_cores(&[(0, 0b1)]), (0b1, 0, 1, 1));
}

#[test]
fn classify_cores_overlapping_masks_or_accumulate() {
    let entries = vec![(1, 0b0001), (1, 0b0010), (1, 0b0100)];
    assert_eq!(classify_cores(&entries), (0b0111, 0, 3, 3));
}

#[test]
fn classify_cores_14900k_simulation() {
    let mut entries = Vec::new();
    for i in 0..8 {
        entries.push((1u8, 0b11u64 << (i * 2)));
    }
    for i in 0..16 {
        entries.push((0u8, 1u64 << (16 + i)));
    }
    let (p, e, phys, log) = classify_cores(&entries);
    assert_eq!(p, 0xFFFF);
    assert_eq!(e, 0xFFFF_0000);
    assert_eq!(phys, 24);
    assert_eq!(log, 32);
}

fn wide(s: &str) -> Vec<u16> {
    s.encode_utf16().collect()
}

#[test]
fn optimization_checks_the_image_then_sets_priority_and_affinity() {
    let steps: RefCell<Vec<String>> = RefCell::new(Vec::new());
    let r = apply_optimization(
        42,
        0b11,
        HIGH_PRIORITY_CLASS,
        |pid| Ok::<u32, String>(pid),
        |h: &u32| {
            steps.borrow_mut().push(format!("image {h}"));
            Some(wide(r"C:\Pearlabyss\BlackDesert\bin64\BlackDesert64.exe"))
        },
        |_h: &u32, p| {
            steps.borrow_mut().push(format!("priority {p:#x}"));
            Ok(())
        },
        |_h: &u32, a| {
            steps.borrow_mut().push(format!("affinity {a:#b}"));
            Ok(())
        },
    );
    assert!(r.is_ok());
    assert_eq!(*steps.borrow(), vec!["image 42", "priority 0x80", "affinity 0b11"]);

    let r = apply_optimization(7, 1, HIGH_PRIORITY_CLASS, |pid| Ok::<u32, String>(pid), |_h: &u32| Some(wide(r"C:\x\notepad.exe")),
        |_h: &u32, _p| panic!("not reached"), |_h: &u32, _a| panic!("not reached"));
    assert_eq!(r.unwrap_err().message(), "PID 7 검증 실패. 게임 프로세스가 종료된 것으로 보입니다.");
    let r = apply_optimization(7, 1, HIGH_PRIORITY_CLASS, |_pid| Err::<u32, String>("denied".into()), |_h: &u32| None,
        |_h: &u32, _p| Ok(()), |_h: &u32, _a| Ok(()));
    assert!(matches!(r, Err(Error::OpenProcess { pid: 7, .. })));
    let r = apply_optimization(7, 1, HIGH_PRIORITY_CLASS, |pid| Ok::<u32, String>(pid), |_h: &u32| Some(wide("BlackDesert64.exe")),
        |_h: &u32, _p| Ok(()), |_h: &u32, _a| Err("bad mask".into()));
    assert_eq!(r.unwrap_err().message(), "Affinity 설정 실패: bad mask");
}

#[test]
fn process_lookup_reuses_a_verified_id_and_rescans_otherwise() {
    let mut cache = Some(5);
    let found = find_process_id(&mut cache, "BlackDesert64.exe", |_pid| Some(wide(r"C:\g\BlackDesert64.exe")), || panic!("no scan"));
    assert_eq!(found, Some(5));
    let mut entry = wide("blackdesert64.EXE");
    entry.resize(260, 0);
    let found = find_process_id(&mut cache, "BlackDesert64.exe", |_pid| None, || vec![(1, wide("explorer.exe")), (9, entry.clone())]);
    assert_eq!(found, Some(9));
    assert_eq!(cache, Some(9));
    let found = find_process_id(&mut cache, "BlackDesert64.exe", |_pid| None, Vec::new);
    assert_eq!(found, None);
    assert_eq!(cache, None);
}
