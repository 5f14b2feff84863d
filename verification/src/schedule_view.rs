use vstd::prelude::*;
use crate::commands::{
    dto_to_mode, mode_to_dto, status, ModeDto, ScheduleCommandResponseDto, ScheduleKindDto,
    ScheduleRuleDto, ScheduleRuleInputDto, ScheduleStateDto,
};
use crate::schedule::{
    self, active_rule_index, is_valid_date, is_valid_time, max_id, summary_spec, LocalClock,
    OptimizeMode, ScheduleKind, ScheduleRule,
};
use crate::text::{char_count, owned, push_str, trim, trim_str};

verus! {

/// Rule names longer than this many characters are refused.
pub const RULE_NAME_MAX_CHARS: usize = 64;

pub open spec fn kind_dto(kind: ScheduleKind) -> ScheduleKindDto {
    match kind {
        ScheduleKind::Daily => ScheduleKindDto::Daily,
        ScheduleKind::Weekday => ScheduleKindDto::Weekday,
        ScheduleKind::Weekend => ScheduleKindDto::Weekend,
        ScheduleKind::SpecificDate(_) => ScheduleKindDto::SpecificDate,
    }
}

/// The date field that goes with a kind: the date of a specific-date rule, else none.
pub open spec fn kind_date_matches(kind: ScheduleKind, date: Option<String>) -> bool {
    match kind {
        ScheduleKind::SpecificDate(d) => date == Some(d),
        _ => date is None,
    }
}

pub fn schedule_kind_to_dto(kind: &ScheduleKind) -> (r: (ScheduleKindDto, Option<String>))
    ensures
        r.0 == kind_dto(*kind),
        kind_date_matches(*kind, r.1),
{
    match kind {
        ScheduleKind::Daily => (ScheduleKindDto::Daily, None),
        ScheduleKind::Weekday => (ScheduleKindDto::Weekday, None),
        ScheduleKind::Weekend => (ScheduleKindDto::Weekend, None),
        ScheduleKind::SpecificDate(date) => (ScheduleKindDto::SpecificDate, Some(date.clone())),
    }
}

/// `d` is the UI form of `rule`.
pub open spec fn is_rule_dto(rule: ScheduleRule, d: ScheduleRuleDto) -> bool {
    &&& d.id == rule.id
    &&& d.name == rule.name
    &&& d.kind == kind_dto(rule.kind)
    &&& kind_date_matches(rule.kind, d.date)
    &&& d.start_time == rule.start_time
    &&& d.end_time == rule.end_time
    &&& d.mode == mode_to_dto(rule.mode)
    &&& d.active == rule.active
    &&& d.summary@ == summary_spec(rule)
}

pub fn schedule_rule_dto(rule: &ScheduleRule) -> (r: ScheduleRuleDto)
    ensures
        is_rule_dto(*rule, r),
{
    let (kind, date) = schedule_kind_to_dto(&rule.kind);
    ScheduleRuleDto {
        id: rule.id,
        name: rule.name.clone(),
        kind,
        date,
        start_time: rule.start_time.clone(),
        end_time: rule.end_time.clone(),
        mode: crate::commands::mode_dto(rule.mode),
        active: rule.active,
        summary: rule.summary(),
    }
}

pub fn schedule_rule_dto_for_test(rule: &ScheduleRule) -> (r: ScheduleRuleDto)
    ensures
        is_rule_dto(*rule, r),
{
    schedule_rule_dto(rule)
}

/// The line naming the rule in force.
pub open spec fn active_rule_text(rules: Seq<ScheduleRule>, clock: LocalClock) -> Seq<char> {
    match active_rule_index(rules, clock) {
        Some(i) => "활성 규칙: "@ + summary_spec(rules[i]),
        None => "활성 규칙 없음."@,
    }
}

/// `r` shows `rules` at `clock`.
pub open spec fn is_schedule_state(rules: Seq<ScheduleRule>, clock: LocalClock, r: ScheduleStateDto) -> bool {
    &&& r.active_rule_info@ == active_rule_text(rules, clock)
    &&& r.empty == (rules.len() == 0)
    &&& r.rules@.len() == rules.len()
    &&& forall|i: int| 0 <= i < rules.len() ==> #[trigger] is_rule_dto(rules[i], r.rules@[i])
}

/// The schedule tab as it looks at `clock`.
pub fn schedule_state_at(rules: &[ScheduleRule], clock: &LocalClock) -> (r: ScheduleStateDto)
    ensures
        is_schedule_state(rules@, *clock, r),
{
    let active_rule_info = match schedule::active_rule_at(rules, clock) {
        Some(rule) => {
            let mut s = owned("활성 규칙: ");
            let summary = rule.summary();
            push_str(&mut s, summary.as_str());
            s
        },
        None => owned("활성 규칙 없음."),
    };
    let mut dtos: Vec<ScheduleRuleDto> = Vec::new();
    let mut i: usize = 0;
    while i < rules.len()
        invariant
            i <= rules.len(),
            dtos@.len() == i,
            forall|k: int| 0 <= k < i ==> #[trigger] is_rule_dto(rules@[k], dtos@[k]),
        decreases rules.len() - i,
    {
        dtos.push(schedule_rule_dto(&rules[i]));
        i = i + 1;
    }
    ScheduleStateDto { active_rule_info, rules: dtos, empty: rules.len() == 0 }
}

/// The schedule tab now, by the local clock.
pub fn schedule_state_from_rules(rules: Vec<ScheduleRule>) -> (r: ScheduleStateDto)
    ensures
        exists|clock: LocalClock| crate::clock::is_clock_reading(clock) && #[trigger] is_schedule_state(rules@, clock, r),
{
    let clock = crate::clock::local_clock();
    let r = schedule_state_at(rules.as_slice(), &clock);
    assert(is_schedule_state(rules@, clock, r));
    r
}

pub fn schedule_command_response(current: &str, schedule: ScheduleStateDto) -> (r: ScheduleCommandResponseDto)
    ensures
        r.status.current@ == current@,
        r.status.previous@ == Seq::<char>::empty(),
        r.schedule == schedule,
{
    ScheduleCommandResponseDto { status: status(current), schedule }
}

// ---------------------------------------------------------------------------
// New rules from the form

pub open spec fn opt_trim(s: Option<String>) -> Seq<char> {
    match s {
        Some(x) => trim(x@),
        None => Seq::<char>::empty(),
    }
}

/// Why the form cannot become a rule, checked in this order: a field is blank, the name
/// is too long, a time is not `HH:MM`, a specific-date rule has no date or a bad one.
pub open spec fn rule_input_error(input: ScheduleRuleInputDto) -> Option<Seq<char>> {
    let name = trim(input.name@);
    let start = trim(input.start_time@);
    let end = trim(input.end_time@);
    if name.len() == 0 || start.len() == 0 || end.len() == 0 {
        Some("규칙 이름, 시작/종료 시간을 모두 입력하세요."@)
    } else if name.len() > RULE_NAME_MAX_CHARS {
        Some("규칙 이름이 너무 깁니다. 64자 이내로 입력하세요."@)
    } else if !is_valid_time(start) || !is_valid_time(end) {
        Some("시작/종료 시간 형식이 올바르지 않습니다. HH:MM 형식으로 입력하세요."@)
    } else if input.kind == ScheduleKindDto::SpecificDate && opt_trim(input.date).len() == 0 {
        Some("특정 날짜 규칙에는 날짜를 입력하세요."@)
    } else if input.kind == ScheduleKindDto::SpecificDate && !is_valid_date(opt_trim(input.date)) {
        Some("날짜 형식이 올바르지 않습니다. YYYY-MM-DD 형식으로 입력하세요."@)
    } else {
        None
    }
}

/// The rule made from a valid form: trimmed fields, switched on.
pub open spec fn is_rule_from_input(input: ScheduleRuleInputDto, id: u32, rule: ScheduleRule) -> bool {
    &&& rule.id == id
    &&& rule.name@ == trim(input.name@)
    &&& rule.start_time@ == trim(input.start_time@)
    &&& rule.end_time@ == trim(input.end_time@)
    &&& rule.mode == dto_to_mode(input.mode)
    &&& rule.active
    &&& match input.kind {
        ScheduleKindDto::Daily => rule.kind == ScheduleKind::Daily,
        ScheduleKindDto::Weekday => rule.kind == ScheduleKind::Weekday,
        ScheduleKindDto::Weekend => rule.kind == ScheduleKind::Weekend,
        ScheduleKindDto::SpecificDate => rule.kind matches ScheduleKind::SpecificDate(d) && d@ == opt_trim(input.date),
    }
}

pub fn schedule_rule_from_input(input: ScheduleRuleInputDto, id: u32) -> (r: Result<ScheduleRule, String>)
    ensures
        match r {
            Ok(rule) => rule_input_error(input) is None && is_rule_from_input(input, id, rule),
            Err(m) => rule_input_error(input) == Some(m@),
        },
{
    let name = trim_str(input.name.as_str());
    let start_time = trim_str(input.start_time.as_str());
    let end_time = trim_str(input.end_time.as_str());
    if name.as_str().is_empty() || start_time.as_str().is_empty() || end_time.as_str().is_empty() {
        return Err(owned("규칙 이름, 시작/종료 시간을 모두 입력하세요."));
    }
    if char_count(name.as_str()) > RULE_NAME_MAX_CHARS {
        return Err(owned("규칙 이름이 너무 깁니다. 64자 이내로 입력하세요."));
    }
    if !schedule::validate_time(start_time.as_str()) || !schedule::validate_time(end_time.as_str()) {
        return Err(owned("시작/종료 시간 형식이 올바르지 않습니다. HH:MM 형식으로 입력하세요."));
    }
    let kind = match input.kind {
        ScheduleKindDto::Daily => ScheduleKind::Daily,
        ScheduleKindDto::Weekday => ScheduleKind::Weekday,
        ScheduleKindDto::Weekend => ScheduleKind::Weekend,
        ScheduleKindDto::SpecificDate => {
            let date = match &input.date {
                Some(d) => trim_str(d.as_str()),
                None => String::new(),
            };
            if date.as_str().is_empty() {
                return Err(owned("특정 날짜 규칙에는 날짜를 입력하세요."));
            }
            if !schedule::validate_date(date.as_str()) {
                return Err(owned("날짜 형식이 올바르지 않습니다. YYYY-MM-DD 형식으로 입력하세요."));
            }
            ScheduleKind::SpecificDate(date)
        },
    };
    Ok(ScheduleRule {
        id,
        name,
        kind,
        start_time,
        end_time,
        mode: crate::commands::backend_mode(input.mode),
        active: true,
    })
}

pub fn schedule_rule_from_input_for_test(input: ScheduleRuleInputDto, id: u32) -> (r: Result<ScheduleRule, String>)
    ensures
        match r {
            Ok(rule) => rule_input_error(input) is None && is_rule_from_input(input, id, rule),
            Err(m) => rule_input_error(input) == Some(m@),
        },
{
    schedule_rule_from_input(input, id)
}

// ---------------------------------------------------------------------------
// Editing the rule list

/// Some rule already has the largest possible id, so no new id is left.
pub open spec fn ids_exhausted(rules: Seq<ScheduleRule>) -> bool {
    exists|i: int| 0 <= i < rules.len() && rules[i].id == u32::MAX
}

/// The id for a new rule: one more than the largest in use; an error once the largest
/// possible id is taken.
pub fn next_schedule_id(rules: &[ScheduleRule]) -> (r: Result<u32, String>)
    ensures
        match r {
            Ok(id) => !ids_exhausted(rules@) && id == max_id(rules@) + 1,
            Err(m) => ids_exhausted(rules@) && m@ == "스케줄 규칙 ID 공간이 소진되었습니다."@,
        },
{
    let mut i: usize = 0;
    while i < rules.len()
        invariant
            i <= rules.len(),
            forall|k: int| 0 <= k < i ==> rules@[k].id < u32::MAX,
        decreases rules.len() - i,
    {
        if rules[i].id == u32::MAX {
            return Err(owned("스케줄 규칙 ID 공간이 소진되었습니다."));
        }
        i = i + 1;
    }
    Ok(schedule::next_id(rules))
}

/// Adds the rule described by the form. The id is taken first; when none is left the
/// request fails. An invalid form leaves the list as it was and its error is the
/// message. The flag tells whether the list changed (and must be saved).
pub fn add_rule_from_input(rules: &mut Vec<ScheduleRule>, input: ScheduleRuleInputDto) -> (r: Result<(bool, String), String>)
    ensures
        ids_exhausted(old(rules)@) ==> (r matches Err(m) && m@ == "스케줄 규칙 ID 공간이 소진되었습니다."@)
            && final(rules)@ == old(rules)@,
        !ids_exhausted(old(rules)@) ==> match rule_input_error(input) {
            Some(e) => (r matches Ok((changed, m)) && !changed && m@ == e) && final(rules)@ == old(rules)@,
            None => (r matches Ok((changed, m)) && changed && m@ == "스케줄 규칙이 추가되었습니다."@)
                && final(rules)@.len() == old(rules)@.len() + 1
                && final(rules)@.drop_last() == old(rules)@
                && is_rule_from_input(input, (max_id(old(rules)@) + 1) as u32, final(rules)@.last()),
        },
{
    let id = match next_schedule_id(rules.as_slice()) {
        Ok(id) => id,
        Err(m) => return Err(m),
    };
    match schedule_rule_from_input(input, id) {
        Ok(rule) => {
            rules.push(rule);
            assert(rules@.drop_last() == old(rules)@);
            Ok((true, owned("스케줄 규칙이 추가되었습니다.")))
        },
        Err(m) => Ok((false, m)),
    }
}

/// The rules whose id is not `id`, in order.
pub open spec fn without_id(rules: Seq<ScheduleRule>, id: u32) -> Seq<ScheduleRule>
    decreases rules.len(),
{
    if rules.len() == 0 {
        Seq::empty()
    } else {
        let rest = without_id(rules.drop_last(), id);
        if rules.last().id == id { rest } else { rest.push(rules.last()) }
    }
}

/// Removes every rule with id `id`. The flag tells whether one was removed.
pub fn delete_rule(rules: &mut Vec<ScheduleRule>, id: u32) -> (r: (bool, String))
    ensures
        final(rules)@ == without_id(old(rules)@, id),
        r.0 == (final(rules)@.len() != old(rules)@.len()),
        r.0 ==> r.1@ == "스케줄 규칙이 삭제되었습니다."@,
        !r.0 ==> r.1@ == "삭제할 스케줄 규칙을 찾을 수 없습니다."@,
{
    let before = rules.len();
    let mut kept: Vec<ScheduleRule> = Vec::new();
    let ghost all = old(rules)@;
    let mut rest: Vec<ScheduleRule> = Vec::new();
    std::mem::swap(&mut rest, rules);
    let mut i: usize = 0;
    while rest.len() > 0
        invariant
            before == all.len(),
            i <= all.len(),
            rest@ == all.skip(i as int),
            kept@ == without_id(all.take(i as int), id),
        decreases rest.len(),
    {
        assert(rest@.len() == all.len() - i);
        assert(all.take(i as int + 1).drop_last() == all.take(i as int));
        let rule = rest.remove(0);
        assert(rule == all[i as int]);
        assert(all.skip(i as int).drop_first() == all.skip(i as int + 1));
        if rule.id != id {
            kept.push(rule);
        }
        i = i + 1;
    }
    assert(all.take(i as int) == all);
    *rules = kept;
    if rules.len() == before {
        (false, owned("삭제할 스케줄 규칙을 찾을 수 없습니다."))
    } else {
        (true, owned("스케줄 규칙이 삭제되었습니다."))
    }
}

/// `after` is `before` with the first rule of id `id` switched on or off.
pub open spec fn toggled_once(before: Seq<ScheduleRule>, id: u32, after: Seq<ScheduleRule>) -> bool {
    exists|i: int| 0 <= i < before.len() && #[trigger] before[i].id == id
        && (forall|j: int| 0 <= j < i ==> before[j].id != id)
        && after == before.update(i, ScheduleRule { active: !before[i].active, ..before[i] })
}

/// Switches the first rule with id `id` on or off. The flag tells whether one was found.
pub fn toggle_rule(rules: &mut Vec<ScheduleRule>, id: u32) -> (r: (bool, String))
    ensures
        r.0 == (exists|i: int| 0 <= i < old(rules)@.len() && old(rules)@[i].id == id),
        r.0 ==> r.1@ == "스케줄 규칙 상태가 변경되었습니다."@,
        !r.0 ==> r.1@ == "변경할 스케줄 규칙을 찾을 수 없습니다."@ && final(rules)@ == old(rules)@,
        r.0 ==> toggled_once(old(rules)@, id, final(rules)@),
{
    let mut i: usize = 0;
    while i < rules.len()
        invariant
            i <= rules.len(),
            rules@ == old(rules)@,
            forall|j: int| 0 <= j < i ==> rules@[j].id != id,
        decreases rules.len() - i,
    {
        if rules[i].id == id {
            let mut rule = rules.remove(i);
            rule.active = !rule.active;
            rules.insert(i, rule);
            assert(rules@ == old(rules)@.update(i as int, ScheduleRule { active: !old(rules)@[i as int].active, ..old(rules)@[i as int] }));
            return (true, owned("스케줄 규칙 상태가 변경되었습니다."));
        }
        i = i + 1;
    }
    (false, owned("변경할 스케줄 규칙을 찾을 수 없습니다."))
}

} // verus!
