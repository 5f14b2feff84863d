use bdo_optimizer_launcher::schedule::OptimizeMode;
use bdo_optimizer_launcher::tray::{mode_menu_labels, mode_tooltip};

#[test]
fn mode_menu_labels_marks_high_only() {
    assert_eq!(
        mode_menu_labels(Some(OptimizeMode::High)),
        ("[현재] 고성능 모드 적용", "일반 모드 적용", "저전력 모드 적용")
    );
}

#[test]
fn mode_menu_labels_resets_when_unknown() {
    assert_eq!(mode_menu_labels(None), ("고성능 모드 적용", "일반 모드 적용", "저전력 모드 적용"));
}

#[test]
fn mode_tooltip_includes_unknown_label() {
    assert_eq!(mode_tooltip(None), "검은사막 최적화 런처 | 현재 모드: 알 수 없음");
}

#[test]
fn mode_labels_mark_each_current_mode() {
    assert_eq!(mode_menu_labels(Some(OptimizeMode::Normal)).1, "[현재] 일반 모드 적용");
    assert_eq!(mode_menu_labels(Some(OptimizeMode::LowPower)).2, "[현재] 저전력 모드 적용");
    assert_eq!(mode_tooltip(Some(OptimizeMode::LowPower)), "검은사막 최적화 런처 | 현재 모드: 저전력 모드");
}
