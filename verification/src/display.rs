use vstd::prelude::*;
use crate::schedule::OptimizeMode;
use crate::text::{dec, owned, push_dec, push_str};

verus! {

/// The label of a mode in the status area.
pub open spec fn mode_label_text(mode: OptimizeMode) -> Seq<char> {
    match mode {
        OptimizeMode::High => "고성능 모드"@,
        OptimizeMode::Normal => "일반 모드"@,
        OptimizeMode::LowPower => "저전력 모드"@,
    }
}

pub fn mode_label(mode: OptimizeMode) -> (r: &'static str)
    ensures
        r@ == mode_label_text(mode),
{
    match mode {
        OptimizeMode::High => "고성능 모드",
        OptimizeMode::Normal => "일반 모드",
        OptimizeMode::LowPower => "저전력 모드",
    }
}

/// The mode shown at start: the one of the rule in force, else the user's last choice.
pub fn pick_initial_mode(active_rule_mode: Option<OptimizeMode>, last_user_mode: Option<OptimizeMode>) -> (r: Option<OptimizeMode>)
    ensures
        r == (if active_rule_mode is Some { active_rule_mode } else { last_user_mode }),
{
    match active_rule_mode {
        Some(m) => Some(m),
        None => last_user_mode,
    }
}

/// The shutdown card is refreshed on the first tick and then every twelfth tick (once a
/// minute at five seconds per tick); `tick` counts the ticks since the last refresh.
pub fn should_refresh_shutdown_ui(tick: &mut u32) -> (r: bool)
    ensures
        r == (*old(tick) == 0 || *old(tick) >= 12),
        r ==> *final(tick) == 1,
        !r ==> *final(tick) == *old(tick) + 1,
{
    let refresh = *tick == 0 || *tick >= 12;
    *tick = if refresh { 1 } else { *tick + 1 };
    refresh
}

/// `n MB`, or `--` without a value.
pub open spec fn mb_text(v: Option<u64>) -> Seq<char> {
    match v {
        Some(n) => dec(n as nat) + " MB"@,
        None => "--"@,
    }
}

pub fn fmt_mb(v: Option<u64>) -> (r: String)
    ensures
        r@ == mb_text(v),
{
    match v {
        Some(n) => {
            let mut s = String::new();
            push_dec(&mut s, n);
            push_str(&mut s, " MB");
            s
        },
        None => owned("--"),
    }
}

/// `used / total MB`; just `used MB` without a total; `--` without a value.
pub open spec fn mb_of_total_text(used: Option<u64>, total: u64) -> Seq<char> {
    match used {
        Some(u) => if total > 0 { dec(u as nat) + " / "@ + dec(total as nat) + " MB"@ } else { dec(u as nat) + " MB"@ },
        None => "--"@,
    }
}

pub fn fmt_mb_of_total(used_mb: Option<u64>, total_mb: u64) -> (r: String)
    ensures
        r@ == mb_of_total_text(used_mb, total_mb),
{
    match used_mb {
        Some(u) => {
            let mut s = String::new();
            push_dec(&mut s, u);
            if total_mb > 0 {
                push_str(&mut s, " / ");
                push_dec(&mut s, total_mb);
            }
            push_str(&mut s, " MB");
            s
        },
        None => owned("--"),
    }
}

/// `n KB/s`, or `--` without a value.
pub open spec fn kbs_text(v: Option<u64>) -> Seq<char> {
    match v {
        Some(n) => dec(n as nat) + " KB/s"@,
        None => "--"@,
    }
}

pub fn fmt_kbs(v: Option<u64>) -> (r: String)
    ensures
        r@ == kbs_text(v),
{
    match v {
        Some(n) => {
            let mut s = String::new();
            push_dec(&mut s, n);
            push_str(&mut s, " KB/s");
            s
        },
        None => owned("--"),
    }
}

/// The calendar heading, `<year>년 <month>월`.
pub open spec fn month_label_text(year: i32, month: u32) -> Seq<char> {
    (if year < 0 { "-"@ + dec((-(year as int)) as nat) } else { dec(year as nat) }) + "년 "@ + dec(month as nat) + "월"@
}

pub fn cal_month_label(year: i32, month: u32) -> (r: String)
    ensures
        r@ == month_label_text(year, month),
{
    let mut s = String::new();
    if year < 0 {
        push_str(&mut s, "-");
        push_dec(&mut s, (0i64 - year as i64) as u64);
    } else {
        push_dec(&mut s, year as u64);
    }
    push_str(&mut s, "년 ");
    push_dec(&mut s, month as u64);
    push_str(&mut s, "월");
    s
}

} // verus!
