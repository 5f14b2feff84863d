use vstd::prelude::*;
use crate::commands::{dto_to_mode, dto_to_theme, mode_to_dto, theme_to_dto, ModeDto, ThemeModeDto};
use crate::fps::{expired, expired_prefix, fps_counted, lemma_expired_prefix_bounds, recorded_event, FpsSession};
use crate::launcher::{is_launcher_path, user_path_decision};
use crate::monitor_view::should_alert;
use crate::mode_request::{reapply_run, reapply_step, reapply_wait_ms_spec, ReapplyDecision, REAPPLY_TARGETS_MS};
use crate::lifecycle::{automation_step, or_else, unless_current, AutomationInput, AutomationState};
use crate::paths::{
    backslashed, is_separator, join_path, last_separator, normalized_path, parent_path, same_or_child, trim_backslashes,
    under_any_root, FALLBACK_SYSTEM_DIR,
};
use crate::process::{
    as_mask, bit, core_bit, high_affinity_bit, is_high_affinity, is_low_power_affinity, is_normal_affinity,
    low_power_bits, min_int, smt_width, CpuInfo,
};
use vstd::set_lib::{lemma_int_range, lemma_map_size, set_int_range};
use crate::schedule::{
    kind_matches, ScheduleKind, active_rule_index, is_candidate, lemma_best_among_is_best, lemma_max_id_bound, max_id, outranks,
    LocalClock, OptimizeMode, ScheduleRule,
};
use crate::schedule_view::{toggled_once, without_id};
use crate::settings::{is_monitor_interval, normalized_interval, ThemeMode};
use crate::shutdown::{day_code, day_listed, day_name, listed_days, weekday_index};
use crate::autostart::{autostart_state, MINIMIZED_FLAG};
use crate::process::{mode_priority, priority_mode};
use crate::text::{ascii_lower, trim};
use crate::system_info::{gpu_names_among, AdapterDesc};

verus! {

// ---------------------------------------------------------------------------
// Automation

/// The automation never asks for the mode that is already in force.
pub proof fn law_automation_never_reapplies_current_mode(s: AutomationState, i: AutomationInput)
    ensures
        automation_step(s, i).1 is Some ==> automation_step(s, i).1 != i.current_mode,
{
}

/// When the game is not running, the automation forgets what it remembered and asks for
/// nothing.
pub proof fn law_absent_game_resets_automation(s: AutomationState, i: AutomationInput)
    requires
        !i.current_present,
    ensures
        automation_step(s, i).1 is None,
        automation_step(s, i).0 == (AutomationState { previous_present: Some(false), ..AutomationState::initial() }),
{
}

/// A game window hidden in the tray, with automatic low power on, is switched to low power
/// unless it already runs in it.
pub proof fn law_hidden_game_goes_low_power(s: AutomationState, i: AutomationInput)
    requires
        i.current_present,
        i.current_visible == Some(false),
        i.auto_low_power,
    ensures
        automation_step(s, i).1 == unless_current(Some(OptimizeMode::LowPower), i.current_mode),
{
}

/// While the game window is visible, the mode of the schedule rule in force wins over the
/// user's last choice and the default mode.
pub proof fn law_visible_schedule_takes_over(s: AutomationState, i: AutomationInput, id: u32, m: OptimizeMode)
    requires
        i.current_present,
        i.current_visible == Some(true),
        i.active_schedule == Some((id, m)),
    ensures
        automation_step(s, i).1 == unless_current(Some(m), i.current_mode),
        automation_step(s, i).0.active_schedule_id == Some(id),
{
}

/// Hiding the game in the tray (automatic low power on) and showing it again brings back
/// the mode it ran in before; the user's last choice, then the default mode, come first
/// when they are set.
pub proof fn law_hide_then_show_restores_mode(
    s: AutomationState,
    hide: AutomationInput,
    show: AutomationInput,
    before: OptimizeMode,
)
    requires
        s.previous_visible != Some(false),
        s.active_schedule_id is None,
        hide.current_present,
        hide.current_visible == Some(false),
        hide.auto_low_power,
        hide.current_mode == Some(before),
        before != OptimizeMode::LowPower,
        show.current_present,
        show.current_visible == Some(true),
        show.auto_low_power,
        show.active_schedule is None,
        show.current_mode == Some(OptimizeMode::LowPower),
    ensures
        automation_step(s, hide).1 == Some(OptimizeMode::LowPower),
        automation_step(automation_step(s, hide).0, show).1 == unless_current(
            or_else(or_else(show.last_user_mode, show.default_mode), Some(before)),
            Some(OptimizeMode::LowPower),
        ),
        show.last_user_mode is None && show.default_mode is None
            ==> automation_step(automation_step(s, hide).0, show).1 == Some(before),
{
}

/// When a schedule rule stops being in force, the mode that ran before it began comes
/// back (when neither a last user choice nor a default mode is set).
pub proof fn law_schedule_end_restores_mode(
    s: AutomationState,
    enter: AutomationInput,
    leave: AutomationInput,
    id: u32,
    m: OptimizeMode,
    before: OptimizeMode,
)
    requires
        s.active_schedule_id is None,
        s.auto_restore_mode is None,
        enter.current_present,
        enter.current_visible == Some(true),
        enter.active_schedule == Some((id, m)),
        enter.current_mode == Some(before),
        enter.last_user_mode is None,
        enter.default_mode is None,
        leave.current_present,
        leave.current_visible == Some(true),
        leave.active_schedule is None,
        leave.last_user_mode is None,
        leave.default_mode is None,
    ensures
        automation_step(automation_step(s, enter).0, leave).1 == unless_current(Some(before), leave.current_mode),
{
}

// ---------------------------------------------------------------------------
// Schedule rules

/// The rule in force is a candidate that no candidate outranks, and it outranks every
/// candidate listed before it; with no candidate, no rule is in force.
pub proof fn law_active_rule_is_best(rules: Seq<ScheduleRule>, clock: LocalClock)
    ensures
        match active_rule_index(rules, clock) {
            Some(k) => 0 <= k < rules.len() && is_candidate(rules[k], clock)
                && (forall|j: int| 0 <= j < rules.len() && is_candidate(rules[j], clock) ==> !outranks(rules[j], rules[k]))
                && (forall|j: int| 0 <= j < k && is_candidate(rules[j], clock) ==> outranks(rules[k], rules[j])),
            None => forall|j: int| 0 <= j < rules.len() ==> !is_candidate(rules[j], clock),
        },
{
    lemma_best_among_is_best(rules, clock, rules.len() as int);
}

/// The id given to a new rule (one more than the largest in use) belongs to no rule.
pub proof fn law_new_rule_id_is_fresh(rules: Seq<ScheduleRule>)
    ensures
        forall|i: int| 0 <= i < rules.len() ==> rules[i].id != max_id(rules) + 1,
{
    lemma_max_id_bound(rules);
}

/// Deleting by id leaves no rule with that id and keeps every other rule.
pub proof fn law_delete_keeps_others(rules: Seq<ScheduleRule>, id: u32)
    ensures
        forall|k: int| 0 <= k < without_id(rules, id).len() ==> (#[trigger] without_id(rules, id)[k]).id != id,
        forall|j: int| 0 <= j < rules.len() && rules[j].id != id ==> without_id(rules, id).contains(#[trigger] rules[j]),
    decreases rules.len(),
{
    if rules.len() > 0 {
        let rest = rules.drop_last();
        law_delete_keeps_others(rest, id);
        assert forall|j: int| 0 <= j < rules.len() && rules[j].id != id implies without_id(rules, id).contains(#[trigger] rules[j]) by {
            if j < rules.len() - 1 {
                assert(rules[j] == rest[j]);
                let k = choose|k: int| 0 <= k < without_id(rest, id).len() && without_id(rest, id)[k] == rest[j];
                if rules.last().id != id {
                    assert(without_id(rules, id)[k] == without_id(rest, id)[k]);
                }
            } else {
                assert(without_id(rules, id).last() == rules.last());
            }
        }
    }
}

/// Switching the same rule twice gives back the list as it was.
pub proof fn law_toggle_twice_restores(a: Seq<ScheduleRule>, b: Seq<ScheduleRule>, c: Seq<ScheduleRule>, id: u32)
    requires
        toggled_once(a, id, b),
        toggled_once(b, id, c),
    ensures
        c == a,
{
    let i = choose|i: int| 0 <= i < a.len() && #[trigger] a[i].id == id
        && (forall|j: int| 0 <= j < i ==> a[j].id != id)
        && b == a.update(i, ScheduleRule { active: !a[i].active, ..a[i] });
    let k = choose|k: int| 0 <= k < b.len() && #[trigger] b[k].id == id
        && (forall|j: int| 0 <= j < k ==> b[j].id != id)
        && c == b.update(k, ScheduleRule { active: !b[k].active, ..b[k] });
    assert(forall|j: int| 0 <= j < a.len() ==> b[j].id == a[j].id);
    if k < i {
        assert(a[k].id == id);
    }
    if i < k {
        assert(b[i].id == id);
    }
    assert(c =~= a);
}

// ---------------------------------------------------------------------------
// Conversions

/// A mode survives the trip to the interface's representation and back, and so does the
/// interface's value.
pub proof fn law_mode_dto_round_trip(m: OptimizeMode, d: ModeDto)
    ensures
        dto_to_mode(mode_to_dto(m)) == m,
        mode_to_dto(dto_to_mode(d)) == d,
{
}

/// A theme survives the trip to the interface's representation and back, and so does the
/// interface's value.
pub proof fn law_theme_dto_round_trip(t: ThemeMode, d: ThemeModeDto)
    ensures
        dto_to_theme(theme_to_dto(t)) == t,
        theme_to_dto(dto_to_theme(d)) == d,
{
}

/// Every scheduler day code names its own weekday (Monday 0 .. Sunday 6).
pub proof fn law_day_codes_round_trip(i: int)
    requires
        0 <= i < 7,
    ensures
        weekday_index(day_code(i)) == Some(i as u8),
{
    reveal_strlit("MON");
    reveal_strlit("TUE");
    reveal_strlit("WED");
    reveal_strlit("THU");
    reveal_strlit("FRI");
    reveal_strlit("SAT");
    reveal_strlit("SUN");
    assert forall|k: int| 0 <= k < i implies day_code(k) != day_code(i) by {
        if day_code(k)[0] == day_code(i)[0] {
            assert(day_code(k)[1] != day_code(i)[1]);
        }
    }
}

/// Normalizing a monitor interval twice is normalizing it once, and the result is always
/// a supported interval.
pub proof fn law_interval_normalization_is_idempotent(ms: u32)
    ensures
        normalized_interval(normalized_interval(ms)) == normalized_interval(ms),
        is_monitor_interval(normalized_interval(ms)),
{
}

/// Once a release has been announced (its version remembered), that release is not
/// announced again.
pub proof fn law_release_announced_once(available: bool, latest: Seq<char>)
    ensures
        !should_alert(available, latest, Some(latest)),
{
}

// ---------------------------------------------------------------------------
// Frame counting

proof fn lemma_expired_prefix_stops(ts: Seq<u64>, now: u64, i: int)
    requires
        0 <= i <= ts.len(),
    ensures
        i <= expired_prefix(ts, now, i) <= ts.len(),
        expired_prefix(ts, now, i) < ts.len() ==> !expired(ts[expired_prefix(ts, now, i)], now),
    decreases ts.len() - i,
{
    if 0 <= i < ts.len() && expired(ts[i], now) {
        lemma_expired_prefix_stops(ts, now, i + 1);
    }
}

/// Pruning a second time at the same instant drops nothing more.
pub proof fn law_prune_is_idempotent(ts: Seq<u64>, now: u64)
    ensures
        expired_prefix(ts.skip(expired_prefix(ts, now, 0)), now, 0) == 0,
{
    lemma_expired_prefix_stops(ts, now, 0);
}

/// With presents recorded in time order, every present that pruning keeps lies within
/// the last second.
pub proof fn law_pruned_presents_are_recent(ts: Seq<u64>, now: u64)
    requires
        forall|a: int, b: int| 0 <= a < b < ts.len() ==> ts[a] <= ts[b],
    ensures
        forall|k: int| 0 <= k < ts.skip(expired_prefix(ts, now, 0)).len()
            ==> !expired(#[trigger] ts.skip(expired_prefix(ts, now, 0))[k], now),
{
    lemma_expired_prefix_stops(ts, now, 0);
    let p = expired_prefix(ts, now, 0);
    assert forall|k: int| 0 <= k < ts.skip(p).len() implies !expired(#[trigger] ts.skip(p)[k], now) by {
        assert(ts.skip(p)[k] == ts[p + k]);
        assert(ts[p] <= ts[p + k]);
    }
}

// ---------------------------------------------------------------------------
// Adapter names

proof fn lemma_gpu_names_distinct(adapters: Seq<AdapterDesc>, n: int)
    requires
        0 <= n <= adapters.len(),
    ensures
        forall|i: int, j: int| 0 <= i < j < gpu_names_among(adapters, n).len()
            ==> gpu_names_among(adapters, n)[i] != gpu_names_among(adapters, n)[j],
        forall|i: int| 0 <= i < gpu_names_among(adapters, n).len() ==> gpu_names_among(adapters, n)[i].len() > 0,
    decreases n,
{
    if n > 0 {
        lemma_gpu_names_distinct(adapters, n - 1);
        let p = gpu_names_among(adapters, n - 1);
        let q = gpu_names_among(adapters, n);
        if q != p {
            assert forall|i: int, j: int| 0 <= i < j < q.len() implies q[i] != q[j] by {
                if j == q.len() - 1 {
                    assert(q[i] == p[i]);
                    assert(!p.contains(q[j]));
                }
            }
        }
    }
}

/// The adapter names shown are distinct and none is empty.
pub proof fn law_gpu_names_are_distinct(adapters: Seq<AdapterDesc>)
    ensures
        forall|i: int, j: int| 0 <= i < j < gpu_names_among(adapters, adapters.len() as int).len()
            ==> gpu_names_among(adapters, adapters.len() as int)[i] != gpu_names_among(adapters, adapters.len() as int)[j],
        forall|i: int| 0 <= i < gpu_names_among(adapters, adapters.len() as int).len()
            ==> gpu_names_among(adapters, adapters.len() as int)[i].len() > 0,
{
    lemma_gpu_names_distinct(adapters, adapters.len() as int);
}

// ---------------------------------------------------------------------------
// Launch safety

/// A user path that is used names the launcher and lies in none of the staging locations.
pub proof fn law_used_user_path_is_vetted(user_path: Seq<char>, deny_roots: Seq<String>)
    ensures
        user_path_decision(user_path, deny_roots) is Some ==> {
            let p = user_path_decision(user_path, deny_roots)->0;
            p.len() > 0 && is_launcher_path(p) && !under_any_root(p, deny_roots)
        },
{
}

// ---------------------------------------------------------------------------
// Affinity masks

/// The bit positions set in `m`.
pub open spec fn set_bits(m: u64) -> Set<int> {
    Set::new(|b: int| 0 <= b < 64 && bit(m, b as u64))
}

proof fn lemma_core_position(info: CpuInfo, i: int)
    requires
        1 <= info.physical_cores <= info.logical_threads <= 64,
        0 <= i < info.physical_cores,
    ensures
        smt_width(info) == info.logical_threads as int / info.physical_cores as int,
        smt_width(info) >= 1,
        0 <= i * smt_width(info),
        i * smt_width(info) + smt_width(info) <= info.logical_threads,
        core_bit(i, smt_width(info)) == i * smt_width(info),
{
    let l = info.logical_threads as int;
    let p = info.physical_cores as int;
    let w = l / p;
    assert(w >= 1) by (nonlinear_arith) requires 1 <= p <= l, w == l / p;
    assert(i * w + w <= l && 0 <= i * w) by (nonlinear_arith) requires 1 <= p, 0 <= i < p, w == l / p, w >= 1, 0 <= l;
}

/// Outside the P-core case, the high-performance mask has one bit per physical core,
/// includes bit 0, and lies within the normal mask.
pub proof fn law_high_mask_takes_one_thread_per_core(info: CpuInfo, high: usize, normal: usize)
    requires
        !(info.has_hybrid && info.p_core_mask != 0),
        1 <= info.physical_cores <= info.logical_threads <= 64,
        is_high_affinity(info, high),
        is_normal_affinity(info, normal),
    ensures
        exists|m: u64, n: u64| #![trigger as_mask(m), as_mask(n)]
            high == as_mask(m) && normal == as_mask(n)
            && set_bits(m).len() == info.physical_cores
            && bit(m, 0)
            && set_bits(m).subset_of(set_bits(n)),
{
    let m = choose|m: u64| high == #[trigger] as_mask(m)
        && forall|b: u64| b < 64 ==> (bit(m, b) <==> high_affinity_bit(info, b as int));
    let n = choose|n: u64| normal == #[trigger] as_mask(n)
        && forall|b: u64| b < 64 ==> (bit(n, b) <==> (b as int) < min_int(info.logical_threads as int, 64));
    let p = info.physical_cores as int;
    let w = smt_width(info);
    lemma_core_position(info, 0);
    let f = |i: int| i * w;
    let dom = set_int_range(0, p);
    assert forall|b: int| #[trigger] set_bits(m).contains(b) <==> dom.map(f).contains(b) by {
        if set_bits(m).contains(b) {
            assert(bit(m, b as u64));
            assert(high_affinity_bit(info, b));
            let i = choose|i: int| 0 <= i < min_int(p, 64) && #[trigger] core_bit(i, w) == b;
            lemma_core_position(info, i);
            assert(dom.contains(i) && f(i) == b);
        }
        if dom.map(f).contains(b) {
            let i = choose|i: int| dom.contains(i) && f(i) == b;
            lemma_core_position(info, i);
            assert(core_bit(i, w) == b);
            assert(high_affinity_bit(info, b));
            assert(bit(m, b as u64));
        }
    }
    assert(set_bits(m) =~= dom.map(f));
    lemma_int_range(0, p);
    assert forall|i: int, j: int| dom.contains(i) && dom.contains(j) && #[trigger] f(i) == #[trigger] f(j) implies i == j by {
        assert(i == j) by (nonlinear_arith) requires i * w == j * w, w >= 1;
    }
    lemma_map_size(dom, set_bits(m), f);
    assert(core_bit(0, w) == 0);
    assert(high_affinity_bit(info, 0));
    assert(bit(m, 0));
    assert forall|b: int| set_bits(m).contains(b) implies #[trigger] set_bits(n).contains(b) by {
        assert(high_affinity_bit(info, b));
        let i = choose|i: int| 0 <= i < min_int(p, 64) && #[trigger] core_bit(i, w) == b;
        lemma_core_position(info, i);
        assert(bit(n, b as u64));
    }
}

/// Outside the E-core case, the low-power mask is one or two bits, includes the last
/// logical thread, and lies within the normal mask.
pub proof fn law_low_power_mask_takes_the_last_threads(info: CpuInfo, low: usize, normal: usize)
    requires
        !(info.has_hybrid && info.e_core_mask != 0),
        1 <= info.logical_threads <= 64,
        is_low_power_affinity(info, low),
        is_normal_affinity(info, normal),
    ensures
        exists|m: u64, n: u64| #![trigger as_mask(m), as_mask(n)]
            low == as_mask(m) && normal == as_mask(n)
            && 1 <= set_bits(m).len() <= 2
            && bit(m, (info.logical_threads - 1) as u64)
            && set_bits(m).subset_of(set_bits(n)),
{
    let m = choose|m: u64| low == #[trigger] as_mask(m)
        && forall|b: u64| b < 64 ==> (bit(m, b) <==> low_power_bits(info, b as int));
    let n = choose|n: u64| normal == #[trigger] as_mask(n)
        && forall|b: u64| b < 64 ==> (bit(n, b) <==> (b as int) < min_int(info.logical_threads as int, 64));
    let l = info.logical_threads as int;
    let top = l - 1;
    assert(bit(m, top as u64));
    assert forall|b: int| set_bits(m).contains(b) implies #[trigger] set_bits(n).contains(b) by {
        assert(low_power_bits(info, b));
        assert(bit(n, b as u64));
    }
    if l >= 2 && low_power_bits(info, l - 2) {
        assert(set_bits(m) =~= set![top, l - 2]);
    } else {
        assert forall|b: int| #[trigger] set_bits(m).contains(b) <==> set![top].contains(b) by {
            if set_bits(m).contains(b) {
                assert(low_power_bits(info, b));
            }
        }
        assert(set_bits(m) =~= set![top]);
    }
}

// ---------------------------------------------------------------------------
// Paths

/// Lying in a directory carries over: what lies in `b` lies in whatever `b` lies in.
pub proof fn law_same_or_child_is_transitive(a: Seq<char>, b: Seq<char>, c: Seq<char>)
    requires
        same_or_child(a, b),
        same_or_child(b, c),
    ensures
        same_or_child(a, c),
{
    let pa = normalized_path(a);
    let pb = normalized_path(b);
    let pc = normalized_path(c);
    reveal_strlit("\\");
    if pb != pc && pa != pb {
        let k: int = pc.len() as int + 1;
        assert(pa.subrange(0, pb.len() as int + 1) == pb + "\\"@);
        assert(pb.subrange(0, k) == pc + "\\"@);
        assert(pa.subrange(0, k) =~= pb.subrange(0, k));
    }
}

/// A path that is more than separators lies in itself.
pub proof fn law_same_or_child_is_reflexive(p: Seq<char>)
    requires
        normalized_path(p).len() > 0,
    ensures
        same_or_child(p, p),
{
}

proof fn lemma_separators_trim_away(s: Seq<char>)
    requires
        forall|i: int| 0 <= i < s.len() ==> #[trigger] s[i] == '\\',
    ensures
        trim_backslashes(s).len() == 0,
    decreases s.len(),
{
    if s.len() > 0 {
        lemma_separators_trim_away(s.drop_last());
    }
}

/// A root that is empty or only separators contains nothing.
pub proof fn law_separator_root_contains_nothing(p: Seq<char>, root: Seq<char>)
    requires
        forall|i: int| 0 <= i < root.len() ==> is_separator(#[trigger] root[i]),
    ensures
        !same_or_child(p, root),
{
    let b = backslashed(root);
    assert forall|i: int| 0 <= i < b.len() implies #[trigger] b[i] == '\\' by {
        assert(is_separator(root[i]));
    }
    lemma_separators_trim_away(b);
}

proof fn lemma_last_separator_skips_name(p: Seq<char>, d: int, i: int)
    requires
        0 <= d < i <= p.len(),
        is_separator(p[d]),
        forall|k: int| d < k < p.len() ==> !is_separator(#[trigger] p[k]),
    ensures
        last_separator(p, i) == d,
    decreases i,
{
    if i - 1 > d {
        lemma_last_separator_skips_name(p, d, i - 1);
    }
}

/// A system tool's path is the reported system directory (or `C:\Windows\System32`
/// when none was reported) with the tool's name as its last component: its parent is
/// that directory, whatever the environment holds.
pub proof fn law_system_tool_lies_in_the_system_directory(dir: Option<Seq<char>>, name: Seq<char>)
    requires
        name.len() > 0,
        forall|k: int| 0 <= k < name.len() ==> !is_separator(#[trigger] name[k]),
        dir matches Some(d) ==> d.len() > 0 && !is_separator(d.last()),
    ensures
        ({
            let d = match dir { Some(d) => d, None => FALLBACK_SYSTEM_DIR@ };
            let p = join_path(d, name);
            &&& parent_path(p) == Some(d)
            &&& p.skip(d.len() as int + 1) == name
        }),
        dir is None ==> FALLBACK_SYSTEM_DIR@.skip(FALLBACK_SYSTEM_DIR@.len() as int - 9) == "\\System32"@,
{
    reveal_strlit("C:\\Windows\\System32");
    reveal_strlit("\\");
    reveal_strlit("\\System32");
    let d = match dir { Some(d) => d, None => FALLBACK_SYSTEM_DIR@ };
    let p = join_path(d, name);
    assert(p == d + "\\"@ + name);
    assert(p[d.len() as int] == '\\');
    assert forall|k: int| d.len() < k < p.len() implies !is_separator(#[trigger] p[k]) by {
        assert(p[k] == name[k - d.len() - 1]);
    }
    lemma_last_separator_skips_name(p, d.len() as int, p.len() as int);
    assert(p.take(d.len() as int) =~= d);
    assert(p.skip(d.len() as int + 1) =~= name);
    assert(FALLBACK_SYSTEM_DIR@.skip(FALLBACK_SYSTEM_DIR@.len() as int - 9) =~= "\\System32"@);
}

// ---------------------------------------------------------------------------
// Frame counting

/// Recording an event never lowers the counters: every event adds one to the total, a
/// game present one to the presents (below the counters' wrap at 2^64).
pub proof fn law_fps_counters_never_decrease(before: FpsSession, after: FpsSession, event_id: u16, event_pid: u32, now: u64)
    requires
        recorded_event(before, after, event_id, event_pid, now),
        before.total_events < u64::MAX,
        before.present_events < u64::MAX,
    ensures
        after.total_events == before.total_events + 1,
        before.present_events <= after.present_events <= before.present_events + 1,
{
}

/// Reading the frame rate leaves the counters as they were.
pub proof fn law_fps_reading_keeps_counters(before: FpsSession, after: FpsSession, now: u64)
    requires
        fps_counted(before, after, now),
    ensures
        after.total_events == before.total_events,
        after.present_events == before.present_events,
        after.timestamps@.len() <= before.timestamps@.len(),
{
    lemma_expired_prefix_bounds(before.timestamps@, now, 0);
}

/// The frames counted in the last second never exceed the presents received: a new
/// session starts with none of either, and recording an event or reading the rate keeps
/// it so (below the counters' wrap at 2^64).
pub proof fn law_frames_never_exceed_presents(
    before: FpsSession,
    recorded: FpsSession,
    read: FpsSession,
    event_id: u16,
    event_pid: u32,
    now: u64,
)
    requires
        before.timestamps@.len() <= before.present_events,
        before.present_events < u64::MAX,
    ensures
        recorded_event(before, recorded, event_id, event_pid, now) ==> recorded.timestamps@.len() <= recorded.present_events,
        fps_counted(before, read, now) ==> read.timestamps@.len() <= read.present_events,
{
    let pushed = before.timestamps@.push(now);
    lemma_expired_prefix_bounds(pushed, now, 0);
    lemma_expired_prefix_bounds(before.timestamps@, now, 0);
}

// ---------------------------------------------------------------------------
// Re-applications

proof fn lemma_reapply_run_bound(obs: Seq<(bool, Option<u32>)>, step: int)
    requires
        0 <= step,
    ensures
        reapply_run(obs, step).len() <= if step < 5 { 5 - step } else { 0 },
    decreases obs.len() - step,
{
    if step < obs.len() {
        lemma_reapply_run_bound(obs, step + 1);
    }
}

proof fn lemma_reapply_run_stops(obs: Seq<(bool, Option<u32>)>, step: int, k: int)
    requires
        0 <= step <= k < obs.len(),
        !obs[k].0,
    ensures
        reapply_run(obs, step) == reapply_run(obs.take(k), step),
    decreases k - step,
{
    if step < k {
        lemma_reapply_run_stops(obs, step + 1, k);
        assert(obs.take(k)[step] == obs[step]);
    }
}

/// A run of re-applications applies the mode at most five times, only to a process the
/// game was found as, each at or after its due time (0.5, 1, 2, 5 and 10 s after the
/// request), and nothing from the first moment a newer request has started.
pub proof fn law_reapplication_run(obs: Seq<(bool, Option<u32>)>, k: int, elapsed: u64, step: int)
    ensures
        reapply_run(obs, 0).len() <= 5,
        forall|i: int| #![trigger reapply_run(obs, 0)[i]] 0 <= i < reapply_run(obs, 0).len() ==> exists|j: int| 0 <= j < 5 && j < obs.len()
            && #[trigger] obs[j].1 == Some(reapply_run(obs, 0)[i]),
        0 <= k < obs.len() && !obs[k].0 ==> reapply_run(obs, 0) == reapply_run(obs.take(k), 0),
        0 <= step < 5 ==> elapsed + reapply_wait_ms_spec(elapsed, REAPPLY_TARGETS_MS[step]) >= REAPPLY_TARGETS_MS[step],
        REAPPLY_TARGETS_MS@ == seq![500u64, 1000, 2000, 5000, 10000],
{
    lemma_reapply_run_bound(obs, 0);
    lemma_reapply_run_members(obs, 0);
    if 0 <= k < obs.len() && !obs[k].0 {
        lemma_reapply_run_stops(obs, 0, k);
    }
}

proof fn lemma_reapply_run_members(obs: Seq<(bool, Option<u32>)>, step: int)
    requires
        0 <= step,
    ensures
        forall|i: int| #![trigger reapply_run(obs, step)[i]] 0 <= i < reapply_run(obs, step).len() ==> exists|j: int| step <= j < 5 && j < obs.len()
            && #[trigger] obs[j].1 == Some(reapply_run(obs, step)[i]),
    decreases obs.len() - step,
{
    if step < obs.len() {
        lemma_reapply_run_members(obs, step + 1);
        let rest = reapply_run(obs, step + 1);
        match reapply_step(step, obs[step].0, obs[step].1) {
            ReapplyDecision::Apply(p) => {
                assert forall|i: int| #![trigger reapply_run(obs, step)[i]] 0 <= i < reapply_run(obs, step).len() implies exists|j: int| step <= j < 5 && j < obs.len()
                    && #[trigger] obs[j].1 == Some(reapply_run(obs, step)[i]) by {
                    if i == 0 {
                        assert(obs[step].1 == Some(reapply_run(obs, step)[0]));
                    } else {
                        assert(reapply_run(obs, step)[i] == rest[i - 1]);
                    }
                }
            },
            _ => {},
        }
    }
}

// ---------------------------------------------------------------------------
// What the decisions are for

/// While the game is shown, no schedule rule is in force or ending, and it is not coming
/// back from the tray with automatic low power, a last chosen mode of the user is what
/// the tick asks for, unless it already runs in it.
pub proof fn law_visible_game_keeps_user_choice(s: AutomationState, i: AutomationInput, m: OptimizeMode)
    requires
        i.current_present,
        i.current_visible == Some(true),
        i.active_schedule is None,
        s.active_schedule_id is None,
        !(s.previous_visible == Some(false) && i.auto_low_power),
        i.last_user_mode == Some(m),
    ensures
        i.current_mode != Some(m) ==> automation_step(s, i).1 == Some(m),
        i.current_mode == Some(m) ==> automation_step(s, i).1 is None,
{
}

/// The rank of a kind of rule: a specific date 3, weekdays or weekends 2, every day 1.
pub open spec fn documented_rank(kind: ScheduleKind) -> int {
    match kind {
        ScheduleKind::SpecificDate(_) => 3,
        ScheduleKind::Weekday => 2,
        ScheduleKind::Weekend => 2,
        ScheduleKind::Daily => 1,
    }
}

/// The rule in force has the highest rank among the rules that apply now (a specific
/// date over weekdays or weekends over every day); ids only decide between rules of the
/// same rank, the highest id winning.
pub proof fn law_active_rule_has_the_highest_rank(rules: Seq<ScheduleRule>, clock: LocalClock)
    ensures
        active_rule_index(rules, clock) matches Some(k) ==> forall|j: int| 0 <= j < rules.len() && #[trigger] is_candidate(rules[j], clock) ==> {
            ||| documented_rank(rules[j].kind) < documented_rank(rules[k].kind)
            ||| (documented_rank(rules[j].kind) == documented_rank(rules[k].kind) && rules[j].id <= rules[k].id)
        },
{
    lemma_best_among_is_best(rules, clock, rules.len() as int);
}

/// A day code is its English day name's first three letters in capitals (Monday: MON,
/// Friday: FRI), so the code read from a task's `<Friday />` is `FRI`.
pub proof fn law_day_code_abbreviates_day_name(i: int)
    requires
        0 <= i < 7,
    ensures
        day_code(i).len() == 3,
        day_code(i)[0] == day_name(i)[0],
        ascii_lower(day_code(i)[1]) == day_name(i)[1],
        ascii_lower(day_code(i)[2]) == day_name(i)[2],
{
    reveal_strlit("MON");
    reveal_strlit("TUE");
    reveal_strlit("WED");
    reveal_strlit("THU");
    reveal_strlit("FRI");
    reveal_strlit("SAT");
    reveal_strlit("SUN");
    reveal_strlit("Monday");
    reveal_strlit("Tuesday");
    reveal_strlit("Wednesday");
    reveal_strlit("Thursday");
    reveal_strlit("Friday");
    reveal_strlit("Saturday");
    reveal_strlit("Sunday");
}

/// Weekend rules apply on the days the scheduler names Saturday and Sunday, weekday
/// rules on the other five.
pub proof fn law_weekend_is_saturday_and_sunday(w: u8, today: Seq<char>)
    requires
        w < 7,
    ensures
        kind_matches(ScheduleKind::Weekend, today, w) <==> (day_name(w as int) == "Saturday"@ || day_name(w as int) == "Sunday"@),
        kind_matches(ScheduleKind::Weekday, today, w) <==> !(day_name(w as int) == "Saturday"@ || day_name(w as int) == "Sunday"@),
{
    reveal_strlit("Monday");
    reveal_strlit("Tuesday");
    reveal_strlit("Wednesday");
    reveal_strlit("Thursday");
    reveal_strlit("Friday");
    reveal_strlit("Saturday");
    reveal_strlit("Sunday");
    assert("Saturday"@.len() != "Sunday"@.len());
    if w < 5 {
        assert(day_name(w as int) != "Saturday"@ && day_name(w as int) != "Sunday"@) by {
            if day_name(w as int).len() == 8 {
                assert(day_name(w as int)[0] != 'S');
            }
            if day_name(w as int).len() == 6 {
                assert(day_name(w as int)[0] != 'S');
            }
        }
    }
}

/// A registered task that runs the accepted program with no arguments (or only blanks)
/// starts normally; with exactly the tray flag it starts minimized; any other argument,
/// an unaccepted program or an unreadable task counts as not registered.
pub proof fn law_autostart_state_reads_the_arguments(cmd: Seq<char>, args: Seq<char>, ok: bool)
    ensures
        ok && trim(args).len() == 0 ==> autostart_state(Some((cmd, args)), ok) == (true, false),
        ok && trim(args) == "--minimized"@ ==> autostart_state(Some((cmd, args)), ok) == (true, true),
        ok && trim(args).len() > 0 && trim(args) != "--minimized"@ ==> autostart_state(Some((cmd, args)), ok) == (false, false),
        !ok ==> autostart_state(Some((cmd, args)), ok) == (false, false),
        autostart_state(None, ok) == (false, false),
{
    reveal_strlit("--minimized");
    assert(MINIMIZED_FLAG@ == "--minimized"@);
    assert(MINIMIZED_FLAG@.len() > 0);
}

/// Each mode's priority class is the Windows class of that name (HIGH 0x80, NORMAL 0x20,
/// IDLE 0x40), distinct for the three modes, and reads back as the same mode.
pub proof fn law_mode_priority_reads_back(m: OptimizeMode)
    ensures
        priority_mode(mode_priority(m)) == Some(m),
        m == OptimizeMode::High ==> mode_priority(m) == 0x80,
        m == OptimizeMode::Normal ==> mode_priority(m) == 0x20,
        m == OptimizeMode::LowPower ==> mode_priority(m) == 0x40,
{
}

/// While the game is shown with no schedule rule in force or ending, not coming back
/// from the tray with automatic low power, and no last choice of the user: the default
/// mode is asked for when the game has just appeared (unless it already runs in it), and
/// nothing otherwise.
pub proof fn law_default_mode_only_when_game_appears(s: AutomationState, i: AutomationInput, m: OptimizeMode)
    requires
        i.current_present,
        i.current_visible == Some(true),
        i.active_schedule is None,
        s.active_schedule_id is None,
        !(s.previous_visible == Some(false) && i.auto_low_power),
        i.last_user_mode is None,
    ensures
        s.previous_present != Some(true) && i.default_mode == Some(m) && i.current_mode != Some(m)
            ==> automation_step(s, i).1 == Some(m),
        s.previous_present == Some(true) ==> automation_step(s, i).1 is None,
{
}

proof fn lemma_listed_days(block: Seq<char>, n: int)
    requires
        0 <= n <= 7,
    ensures
        forall|k: int| 0 <= k < listed_days(block, n).len() ==> (#[trigger] weekday_index(listed_days(block, n)[k])) is Some
            && (weekday_index(listed_days(block, n)[k])->0 as int) < n
            && listed_days(block, n)[k] == day_code(weekday_index(listed_days(block, n)[k])->0 as int)
            && day_listed(block, weekday_index(listed_days(block, n)[k])->0 as int),
        forall|i: int| 0 <= i < n && day_listed(block, i) ==> #[trigger] listed_days(block, n).contains(day_code(i)),
        forall|a: int, b: int| 0 <= a < b < listed_days(block, n).len()
            ==> (weekday_index(#[trigger] listed_days(block, n)[a])->0 as int) < (weekday_index(#[trigger] listed_days(block, n)[b])->0 as int),
    decreases n,
{
    if n > 0 {
        lemma_listed_days(block, n - 1);
        let p = listed_days(block, n - 1);
        let q = listed_days(block, n);
        law_day_codes_round_trip(n - 1);
        if day_listed(block, n - 1) {
            assert(q == p.push(day_code(n - 1)));
            assert forall|k: int| 0 <= k < q.len() implies (#[trigger] weekday_index(q[k])) is Some
                && (weekday_index(q[k])->0 as int) < n
                && q[k] == day_code(weekday_index(q[k])->0 as int)
                && day_listed(block, weekday_index(q[k])->0 as int) by {
                if k < p.len() {
                    assert(q[k] == p[k]);
                    assert(weekday_index(p[k]) is Some);
                } else {
                    assert(q[k] == day_code(n - 1));
                }
            }
            assert forall|i: int| 0 <= i < n && day_listed(block, i) implies #[trigger] q.contains(day_code(i)) by {
                if i < n - 1 {
                    assert(p.contains(day_code(i)));
                    let k = choose|k: int| 0 <= k < p.len() && p[k] == day_code(i);
                    assert(q[k] == day_code(i));
                } else {
                    assert(q[p.len() as int] == day_code(i));
                }
            }
            assert forall|a: int, b: int| 0 <= a < b < q.len()
                implies (weekday_index(#[trigger] q[a])->0 as int) < (weekday_index(#[trigger] q[b])->0 as int) by {
                assert(q[a] == p[a]);
                assert(weekday_index(p[a]) is Some && (weekday_index(p[a])->0 as int) < n - 1);
                if b < p.len() {
                    assert(q[b] == p[b]);
                } else {
                    assert(q[b] == day_code(n - 1));
                }
            }
        } else {
            assert(q == p);
        }
    }
}

/// The days read from a weekly task are exactly the days it lists, each as its own
/// code, in week order from Monday.
pub proof fn law_days_of_week_in_week_order(block: Seq<char>)
    ensures
        forall|i: int| 0 <= i < 7 ==> (#[trigger] listed_days(block, 7).contains(day_code(i)) <==> day_listed(block, i)),
        forall|a: int, b: int| 0 <= a < b < listed_days(block, 7).len()
            ==> (weekday_index(#[trigger] listed_days(block, 7)[a])->0 as int) < (weekday_index(#[trigger] listed_days(block, 7)[b])->0 as int),
{
    lemma_listed_days(block, 7);
    assert forall|i: int| 0 <= i < 7 && #[trigger] listed_days(block, 7).contains(day_code(i)) implies day_listed(block, i) by {
        let k = choose|k: int| 0 <= k < listed_days(block, 7).len() && listed_days(block, 7)[k] == day_code(i);
        law_day_codes_round_trip(i);
        assert(weekday_index(listed_days(block, 7)[k]) == Some(i as u8));
    }
}

} // verus!
