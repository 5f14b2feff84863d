use vstd::prelude::*;
use crate::text::{
    chars_eq, chars_le, chars_lt, chars_of, dec2, digit_value, is_digit, lex_le, lex_lt, owned, push_dec2, push_str,
};

verus! {

/// Optimization modes that can be applied to the game process.
#[derive(Debug, Clone, Copy, PartialEq, Eq, Structural)]
pub enum OptimizeMode {
    High,
    Normal,
    LowPower,
}

/// On which days a schedule rule applies.
#[derive(Debug, Clone, PartialEq)]
pub enum ScheduleKind {
    Daily,
    Weekday,
    Weekend,
    /// `YYYY-MM-DD`
    SpecificDate(String),
}

/// A time window in which a mode is applied automatically.
#[derive(Debug, Clone)]
pub struct ScheduleRule {
    pub id: u32,
    pub name: String,
    pub kind: ScheduleKind,
    /// `HH:MM`
    pub start_time: String,
    /// `HH:MM`
    pub end_time: String,
    pub mode: OptimizeMode,
    pub active: bool,
}

// ---------------------------------------------------------------------------
// Calendar

pub open spec fn is_leap_year(y: int) -> bool {
    y % 4 == 0 && (y % 100 != 0 || y % 400 == 0)
}

pub open spec fn days_in_month(y: int, m: int) -> int {
    if m == 2 {
        if is_leap_year(y) { 29 } else { 28 }
    } else if m == 4 || m == 6 || m == 9 || m == 11 {
        30
    } else {
        31
    }
}

/// `chrono::NaiveDate::from_ymd_opt(y, m, d).is_some()`: a proleptic Gregorian date
/// within chrono's year range.
pub open spec fn date_exists(y: i32, m: u32, d: u32) -> bool {
    &&& -262143 <= y <= 262142
    &&& 1 <= m <= 12
    &&& 1 <= d <= days_in_month(y as int, m as int)
}

/// Calls `chrono::NaiveDate::from_ymd_opt`, which returns `None` exactly when the day does
/// not exist in the proleptic Gregorian calendar or the year is outside chrono's range
/// (-262143 ..= 262142).
#[verifier::external_body]
pub(crate) fn naive_date_exists(y: i32, m: u32, d: u32) -> (r: bool)
    ensures
        r == date_exists(y, m, d),
{
    chrono::NaiveDate::from_ymd_opt(y, m, d).is_some()
}

// ---------------------------------------------------------------------------
// Validation

/// The value of two decimal digits.
pub open spec fn two_digits(a: char, b: char) -> nat {
    digit_value(a) * 10 + digit_value(b)
}

/// `HH:MM`: two ASCII digits each, hour below 24 and minute below 60.
pub open spec fn is_valid_time(s: Seq<char>) -> bool {
    &&& s.len() == 5
    &&& s[2] == ':'
    &&& is_digit(s[0]) && is_digit(s[1]) && is_digit(s[3]) && is_digit(s[4])
    &&& two_digits(s[0], s[1]) < 24
    &&& two_digits(s[3], s[4]) < 60
}

fn digit(c: char) -> (r: Option<u32>)
    ensures
        r == (if is_digit(c) { Some(digit_value(c) as u32) } else { None::<u32> }),
{
    if '0' <= c && c <= '9' {
        Some(c as u32 - '0' as u32)
    } else {
        None
    }
}

fn two_digit_value(a: char, b: char) -> (r: Option<u32>)
    ensures
        r == (if is_digit(a) && is_digit(b) { Some(two_digits(a, b) as u32) } else { None::<u32> }),
{
    match (digit(a), digit(b)) {
        (Some(x), Some(y)) => Some(x * 10 + y),
        _ => None,
    }
}

pub fn validate_time(s: &str) -> (r: bool)
    ensures
        r == is_valid_time(s@),
{
    let c = chars_of(s);
    if c.len() != 5 || c[2] != ':' {
        return false;
    }
    match (two_digit_value(c[0], c[1]), two_digit_value(c[3], c[4])) {
        (Some(h), Some(m)) => h < 24 && m < 60,
        _ => false,
    }
}

/// `YYYY-MM-DD`, ASCII digits in every field, naming a day that exists in the calendar.
pub open spec fn is_valid_date(s: Seq<char>) -> bool {
    &&& s.len() == 10
    &&& s[4] == '-'
    &&& s[7] == '-'
    &&& is_digit(s[0]) && is_digit(s[1]) && is_digit(s[2]) && is_digit(s[3])
    &&& is_digit(s[5]) && is_digit(s[6]) && is_digit(s[8]) && is_digit(s[9])
    &&& date_exists(
        (two_digits(s[0], s[1]) * 100 + two_digits(s[2], s[3])) as i32,
        two_digits(s[5], s[6]) as u32,
        two_digits(s[8], s[9]) as u32,
    )
}

pub fn validate_date(s: &str) -> (r: bool)
    ensures
        r == is_valid_date(s@),
{
    let c = chars_of(s);
    if c.len() != 10 || c[4] != '-' || c[7] != '-' {
        return false;
    }
    match (two_digit_value(c[0], c[1]), two_digit_value(c[2], c[3]), two_digit_value(c[5], c[6]), two_digit_value(c[8], c[9])) {
        (Some(y1), Some(y2), Some(mo), Some(da)) => naive_date_exists((y1 * 100 + y2) as i32, mo, da),
        _ => false,
    }
}

// ---------------------------------------------------------------------------
// Rule matching

/// `now` lies in `[start, end)`; when `start > end` the range wraps past midnight.
pub open spec fn in_range(start: Seq<char>, end: Seq<char>, now: Seq<char>) -> bool {
    if lex_le(start, end) {
        lex_le(start, now) && lex_lt(now, end)
    } else {
        lex_le(start, now) || lex_lt(now, end)
    }
}

pub fn in_time_range(start: &str, end: &str, now: &str) -> (r: bool)
    ensures
        r == in_range(start@, end@, now@),
{
    let s = chars_of(start);
    let e = chars_of(end);
    let n = chars_of(now);
    if chars_le(s.as_slice(), e.as_slice()) {
        chars_le(s.as_slice(), n.as_slice()) && chars_lt(n.as_slice(), e.as_slice())
    } else {
        chars_le(s.as_slice(), n.as_slice()) || chars_lt(n.as_slice(), e.as_slice())
    }
}

/// The rule's day kind holds on the day `today` whose weekday is `weekday` (0 = Monday).
pub open spec fn kind_matches(kind: ScheduleKind, today: Seq<char>, weekday: u8) -> bool {
    match kind {
        ScheduleKind::Daily => true,
        ScheduleKind::Weekday => weekday < 5,
        ScheduleKind::Weekend => weekday >= 5,
        ScheduleKind::SpecificDate(d) => d@ == today,
    }
}

pub fn matches_kind(rule: &ScheduleRule, today: &str, weekday: u8) -> (r: bool)
    ensures
        r == kind_matches(rule.kind, today@, weekday),
{
    match &rule.kind {
        ScheduleKind::Daily => true,
        ScheduleKind::Weekday => weekday < 5,
        ScheduleKind::Weekend => weekday >= 5,
        ScheduleKind::SpecificDate(d) => {
            let dc = chars_of(d.as_str());
            let tc = chars_of(today);
            chars_eq(dc.as_slice(), tc.as_slice())
        },
    }
}

/// Specific dates outrank weekday/weekend rules, which outrank daily rules.
pub open spec fn kind_priority(kind: ScheduleKind) -> u8 {
    match kind {
        ScheduleKind::SpecificDate(_) => 3,
        ScheduleKind::Weekday | ScheduleKind::Weekend => 2,
        ScheduleKind::Daily => 1,
    }
}

pub fn priority(rule: &ScheduleRule) -> (r: u8)
    ensures
        r == kind_priority(rule.kind),
{
    match &rule.kind {
        ScheduleKind::SpecificDate(_) => 3,
        ScheduleKind::Weekday | ScheduleKind::Weekend => 2,
        ScheduleKind::Daily => 1,
    }
}

/// The local date and time that rule selection looks at.
#[derive(Debug, Clone)]
pub struct LocalClock {
    /// `YYYY-MM-DD`
    pub today: String,
    /// 0 = Monday .. 6 = Sunday
    pub weekday: u8,
    /// `HH:MM`
    pub time_now: String,
    /// The date 24 hours earlier, `YYYY-MM-DD`.
    pub yesterday: String,
    pub yweekday: u8,
}

/// A rule competes at `clock` when it is on, the time lies in its window, and its day
/// kind holds; for a window that wraps past midnight, after midnight the previous day counts.
pub open spec fn is_candidate(rule: ScheduleRule, clock: LocalClock) -> bool {
    &&& rule.active
    &&& in_range(rule.start_time@, rule.end_time@, clock.time_now@)
    &&& if lex_lt(rule.end_time@, rule.start_time@) && lex_lt(clock.time_now@, rule.end_time@) {
        kind_matches(rule.kind, clock.yesterday@, clock.yweekday)
    } else {
        kind_matches(rule.kind, clock.today@, clock.weekday)
    }
}

/// `(priority, id)` of `a` is above that of `b`.
pub open spec fn outranks(a: ScheduleRule, b: ScheduleRule) -> bool {
    kind_priority(a.kind) > kind_priority(b.kind)
        || (kind_priority(a.kind) == kind_priority(b.kind) && a.id > b.id)
}

/// Index of the winning rule among the first `n`: the earliest candidate with the
/// highest `(priority, id)`.
pub open spec fn best_among(rules: Seq<ScheduleRule>, clock: LocalClock, n: int) -> Option<int>
    decreases n,
{
    if n <= 0 {
        None
    } else {
        let prev = best_among(rules, clock, n - 1);
        if is_candidate(rules[n - 1], clock) && (prev is None || outranks(rules[n - 1], rules[prev->0])) {
            Some(n - 1)
        } else {
            prev
        }
    }
}

pub open spec fn active_rule_index(rules: Seq<ScheduleRule>, clock: LocalClock) -> Option<int> {
    best_among(rules, clock, rules.len() as int)
}

fn is_candidate_exec(rule: &ScheduleRule, clock: &LocalClock) -> (r: bool)
    ensures
        r == is_candidate(*rule, *clock),
{
    if !rule.active {
        return false;
    }
    if !in_time_range(rule.start_time.as_str(), rule.end_time.as_str(), clock.time_now.as_str()) {
        return false;
    }
    let s = chars_of(rule.start_time.as_str());
    let e = chars_of(rule.end_time.as_str());
    let n = chars_of(clock.time_now.as_str());
    let is_overnight = chars_lt(e.as_slice(), s.as_slice());
    if is_overnight && chars_lt(n.as_slice(), e.as_slice()) {
        matches_kind(rule, clock.yesterday.as_str(), clock.yweekday)
    } else {
        matches_kind(rule, clock.today.as_str(), clock.weekday)
    }
}

/// The rule in force at `clock`: among the candidates, the highest priority wins, then the
/// highest (newest) id, then the earliest position.
pub fn active_rule_at<'a>(rules: &'a [ScheduleRule], clock: &LocalClock) -> (r: Option<&'a ScheduleRule>)
    ensures
        match active_rule_index(rules@, *clock) {
            Some(i) => r == Some(&rules@[i]),
            None => r is None,
        },
{
    let mut best: Option<usize> = None;
    let mut i: usize = 0;
    while i < rules.len()
        invariant
            i <= rules.len(),
            match best_among(rules@, *clock, i as int) {
                Some(k) => best == Some(k as usize) && 0 <= k < i,
                None => best is None,
            },
        decreases rules.len() - i,
    {
        if is_candidate_exec(&rules[i], clock) {
            let take = match best {
                None => true,
                Some(b) => {
                    let pi = priority(&rules[i]);
                    let pb = priority(&rules[b]);
                    pi > pb || (pi == pb && rules[i].id > rules[b].id)
                },
            };
            if take {
                best = Some(i);
            }
        }
        i = i + 1;
    }
    match best {
        Some(b) => Some(&rules[b]),
        None => None,
    }
}

/// The rule in force now, by the local clock (see `active_rule_at`).
pub fn active_rule(rules: &[ScheduleRule]) -> (r: Option<&ScheduleRule>)
    ensures
        exists|clock: LocalClock| crate::clock::is_clock_reading(clock) && match #[trigger] active_rule_index(rules@, clock) {
            Some(i) => r == Some(&rules@[i]),
            None => r is None,
        },
{
    let clock = crate::clock::local_clock();
    let r = active_rule_at(rules, &clock);
    assert(match active_rule_index(rules@, clock) {
        Some(i) => r == Some(&rules@[i]),
        None => r is None,
    });
    r
}

pub proof fn lemma_best_among_is_best(rules: Seq<ScheduleRule>, clock: LocalClock, n: int)
    requires
        0 <= n <= rules.len(),
    ensures
        match best_among(rules, clock, n) {
            Some(k) => 0 <= k < n && is_candidate(rules[k], clock)
                && (forall|j: int| 0 <= j < n && is_candidate(rules[j], clock) ==> !outranks(rules[j], rules[k]))
                && (forall|j: int| 0 <= j < k && is_candidate(rules[j], clock) ==> outranks(rules[k], rules[j])),
            None => forall|j: int| 0 <= j < n ==> !is_candidate(rules[j], clock),
        },
    decreases n,
{
    if n > 0 {
        lemma_best_among_is_best(rules, clock, n - 1);
    }
}

/// The largest id among the rules (0 for none).
pub open spec fn max_id(rules: Seq<ScheduleRule>) -> nat
    decreases rules.len(),
{
    if rules.len() == 0 {
        0
    } else {
        let m = max_id(rules.drop_last());
        if rules.last().id > m { rules.last().id as nat } else { m }
    }
}

pub proof fn lemma_max_id_bound(rules: Seq<ScheduleRule>)
    ensures
        (forall|i: int| 0 <= i < rules.len() ==> (rules[i].id as nat) <= max_id(rules)),
        rules.len() > 0 ==> exists|i: int| 0 <= i < rules.len() && rules[i].id as nat == max_id(rules),
    decreases rules.len(),
{
    if rules.len() > 0 {
        lemma_max_id_bound(rules.drop_last());
        if rules.len() > 1 && rules.last().id as nat <= max_id(rules.drop_last()) {
            let i = choose|i: int| 0 <= i < rules.drop_last().len() && rules.drop_last()[i].id as nat == max_id(rules.drop_last());
            assert(rules[i] == rules.drop_last()[i]);
        }
        assert forall|i: int| 0 <= i < rules.len() implies (rules[i].id as nat) <= max_id(rules) by {
            if i < rules.len() - 1 {
                assert(rules[i] == rules.drop_last()[i]);
            }
        }
    }
}

/// One more than the largest id in use (1 when there are no rules).
pub fn next_id(rules: &[ScheduleRule]) -> (r: u32)
    requires
        forall|i: int| 0 <= i < rules@.len() ==> rules@[i].id < u32::MAX,
    ensures
        r == max_id(rules@) + 1,
{
    proof { lemma_max_id_bound(rules@); }
    let mut m: u32 = 0;
    let mut i: usize = 0;
    while i < rules.len()
        invariant
            i <= rules.len(),
            m == max_id(rules@.take(i as int)),
        decreases rules.len() - i,
    {
        assert(rules@.take(i as int + 1).drop_last() == rules@.take(i as int));
        if rules[i].id > m {
            m = rules[i].id;
        }
        i = i + 1;
    }
    assert(rules@.take(rules@.len() as int) == rules@);
    if rules.len() > 0 {
        let ghost k = choose|k: int| 0 <= k < rules@.len() && rules@[k].id as nat == max_id(rules@);
        assert(rules@[k].id < u32::MAX);
    }
    m + 1
}

// ---------------------------------------------------------------------------
// Labels

pub open spec fn kind_label_spec(kind: ScheduleKind) -> Seq<char> {
    match kind {
        ScheduleKind::Daily => "매일"@,
        ScheduleKind::Weekday => "평일"@,
        ScheduleKind::Weekend => "주말"@,
        ScheduleKind::SpecificDate(d) => d@,
    }
}

pub open spec fn mode_label_spec(mode: OptimizeMode) -> Seq<char> {
    match mode {
        OptimizeMode::High => "고성능"@,
        OptimizeMode::Normal => "일반"@,
        OptimizeMode::LowPower => "저전력"@,
    }
}

/// `name | kind | start-end | mode`
pub open spec fn summary_spec(rule: ScheduleRule) -> Seq<char> {
    rule.name@ + " | "@ + kind_label_spec(rule.kind) + " | "@ + rule.start_time@ + "-"@ + rule.end_time@
        + " | "@ + mode_label_spec(rule.mode)
}

impl ScheduleRule {
    pub fn kind_label(&self) -> (r: &str)
        ensures
            r@ == kind_label_spec(self.kind),
    {
        match &self.kind {
            ScheduleKind::Daily => "매일",
            ScheduleKind::Weekday => "평일",
            ScheduleKind::Weekend => "주말",
            ScheduleKind::SpecificDate(d) => d.as_str(),
        }
    }

    pub fn mode_label(&self) -> (r: &str)
        ensures
            r@ == mode_label_spec(self.mode),
    {
        match self.mode {
            OptimizeMode::High => "고성능",
            OptimizeMode::Normal => "일반",
            OptimizeMode::LowPower => "저전력",
        }
    }

    pub fn summary(&self) -> (r: String)
        ensures
            r@ == summary_spec(*self),
    {
        let mut s = self.name.clone();
        push_str(&mut s, " | ");
        push_str(&mut s, self.kind_label());
        push_str(&mut s, " | ");
        push_str(&mut s, self.start_time.as_str());
        push_str(&mut s, "-");
        push_str(&mut s, self.end_time.as_str());
        push_str(&mut s, " | ");
        push_str(&mut s, self.mode_label());
        s
    }
}

// ---------------------------------------------------------------------------
// Loading

/// A stored rule is kept when both times are valid and a specific date is a real day.
pub open spec fn is_loadable(rule: ScheduleRule) -> bool {
    &&& is_valid_time(rule.start_time@)
    &&& is_valid_time(rule.end_time@)
    &&& match rule.kind {
        ScheduleKind::SpecificDate(d) => is_valid_date(d@),
        _ => true,
    }
}

pub open spec fn loadable_rules(rules: Seq<ScheduleRule>) -> Seq<ScheduleRule>
    decreases rules.len(),
{
    if rules.len() == 0 {
        Seq::empty()
    } else {
        let rest = loadable_rules(rules.drop_last());
        if is_loadable(rules.last()) { rest.push(rules.last()) } else { rest }
    }
}

pub fn is_loadable_rule(rule: &ScheduleRule) -> (r: bool)
    ensures
        r == is_loadable(*rule),
{
    if !validate_time(rule.start_time.as_str()) || !validate_time(rule.end_time.as_str()) {
        return false;
    }
    match &rule.kind {
        ScheduleKind::SpecificDate(d) => validate_date(d.as_str()),
        _ => true,
    }
}

/// Drops stored rules whose times or date are invalid, keeping the order of the rest.
pub fn retain_loadable(rules: Vec<ScheduleRule>) -> (r: Vec<ScheduleRule>)
    ensures
        r@ == loadable_rules(rules@),
{
    let mut out: Vec<ScheduleRule> = Vec::new();
    let ghost all = rules@;
    let total = rules.len();
    let mut rest = rules;
    let mut i: usize = 0;
    while rest.len() > 0
        invariant
            total == all.len(),
            i <= all.len(),
            rest@ == all.skip(i as int),
            out@ == loadable_rules(all.take(i as int)),
        decreases rest.len(),
    {
        assert(rest@.len() == all.len() - i);
        assert(all.take(i as int + 1).drop_last() == all.take(i as int));
        let rule = rest.remove(0);
        assert(rule == all[i as int]);
        assert(all.skip(i as int).drop_first() == all.skip(i as int + 1));
        if is_loadable_rule(&rule) {
            out.push(rule);
        }
        i = i + 1;
    }
    assert(all.take(i as int) == all);
    out
}

} // verus!
