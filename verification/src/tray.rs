use vstd::prelude::*;
use crate::schedule::OptimizeMode;
use crate::text::{owned, push_str};

verus! {

pub open spec fn menu_labels_spec(mode: Option<OptimizeMode>) -> (Seq<char>, Seq<char>, Seq<char>) {
    match mode {
        Some(OptimizeMode::High) => ("[현재] 고성능 모드 적용"@, "일반 모드 적용"@, "저전력 모드 적용"@),
        Some(OptimizeMode::Normal) => ("고성능 모드 적용"@, "[현재] 일반 모드 적용"@, "저전력 모드 적용"@),
        Some(OptimizeMode::LowPower) => ("고성능 모드 적용"@, "일반 모드 적용"@, "[현재] 저전력 모드 적용"@),
        None => ("고성능 모드 적용"@, "일반 모드 적용"@, "저전력 모드 적용"@),
    }
}

/// Tray menu texts for the three modes; the mode in force is marked `[현재]`.
pub fn mode_menu_labels(mode: Option<OptimizeMode>) -> (r: (&'static str, &'static str, &'static str))
    ensures
        (r.0@, r.1@, r.2@) == menu_labels_spec(mode),
{
    match mode {
        Some(OptimizeMode::High) => ("[현재] 고성능 모드 적용", "일반 모드 적용", "저전력 모드 적용"),
        Some(OptimizeMode::Normal) => ("고성능 모드 적용", "[현재] 일반 모드 적용", "저전력 모드 적용"),
        Some(OptimizeMode::LowPower) => ("고성능 모드 적용", "일반 모드 적용", "[현재] 저전력 모드 적용"),
        None => ("고성능 모드 적용", "일반 모드 적용", "저전력 모드 적용"),
    }
}

pub open spec fn tooltip_mode_label(mode: Option<OptimizeMode>) -> Seq<char> {
    match mode {
        Some(OptimizeMode::High) => "고성능 모드"@,
        Some(OptimizeMode::Normal) => "일반 모드"@,
        Some(OptimizeMode::LowPower) => "저전력 모드"@,
        None => "알 수 없음"@,
    }
}

/// The tray tooltip naming the mode in force.
pub fn mode_tooltip(mode: Option<OptimizeMode>) -> (r: String)
    ensures
        r@ == "검은사막 최적화 런처 | 현재 모드: "@ + tooltip_mode_label(mode),
{
    let label = match mode {
        Some(OptimizeMode::High) => "고성능 모드",
        Some(OptimizeMode::Normal) => "일반 모드",
        Some(OptimizeMode::LowPower) => "저전력 모드",
        None => "알 수 없음",
    };
    let mut s = owned("검은사막 최적화 런처 | 현재 모드: ");
    push_str(&mut s, label);
    s
}

} // verus!
