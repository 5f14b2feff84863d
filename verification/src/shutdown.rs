use vstd::prelude::*;
use vstd::string::StringSliceAdditionalSpecFns;
use chrono::{Datelike, Timelike};
use crate::cmd::{decode_lossy, string_list, string_views, utf8_lossy, CommandOutput};
use crate::schedule::{date_exists, naive_date_exists};
use crate::text::{
    bytes_as_chars, chars_have_sub, chars_of, has_sub, join, join_strs, latin1, owned,
    parse_i32, parse_i32_spec, parse_u32, parse_u32_spec, push_str, split_char, split_chars,
    str_views, string_of, tag_block, tag_block_chars, trim, trim_chars, trim_str,
};

verus! {

/// Failures of the shutdown scheduling operations.
#[derive(Debug, Clone)]
pub enum Error {
    InvalidInput(String),
    SchtasksSpawn(String),
    RegisterOnceFailed,
    RegisterWeeklyFailed,
    TaskNotFound,
    DeleteFailed(String),
}

/// The user-facing text of a shutdown error.
pub open spec fn error_text(e: Error) -> Seq<char> {
    match e {
        Error::InvalidInput(m) => m@,
        Error::SchtasksSpawn(m) => "schtasks 실행 실패: "@ + m@,
        Error::RegisterOnceFailed => "단발 종료 예약 등록 실패. 관리자 권한을 확인하세요."@,
        Error::RegisterWeeklyFailed => "매주 반복 종료 예약 등록 실패. 관리자 권한을 확인하세요."@,
        Error::TaskNotFound => "이미 등록된 예약이 없습니다."@,
        Error::DeleteFailed(d) => "예약 취소 실패. 관리자 권한을 확인하세요. ("@ + d@ + ")"@,
    }
}

impl Error {
    /// The message shown to the user for this error.
    pub fn message(&self) -> (r: String)
        ensures
            r@ == error_text(*self),
    {
        match self {
            Error::InvalidInput(m) => m.clone(),
            Error::SchtasksSpawn(m) => {
                let mut s = owned("schtasks 실행 실패: ");
                push_str(&mut s, m.as_str());
                s
            },
            Error::RegisterOnceFailed => owned("단발 종료 예약 등록 실패. 관리자 권한을 확인하세요."),
            Error::RegisterWeeklyFailed => owned("매주 반복 종료 예약 등록 실패. 관리자 권한을 확인하세요."),
            Error::TaskNotFound => owned("이미 등록된 예약이 없습니다."),
            Error::DeleteFailed(d) => {
                let mut s = owned("예약 취소 실패. 관리자 권한을 확인하세요. (");
                push_str(&mut s, d.as_str());
                push_str(&mut s, ")");
                s
            },
        }
    }

    pub fn is_task_not_found(&self) -> (r: bool)
        ensures
            r == (*self is TaskNotFound),
    {
        matches!(self, Error::TaskNotFound)
    }
}


/// A scheduled local time and how many whole seconds it lies ahead of now.
#[derive(Debug, Clone, Copy)]
pub struct ScheduledTime {
    pub at: crate::clock::CalendarFields,
    pub secs_from_now: i64,
}

/// The next run of the weekly task.
pub struct WeeklyInfo {
    /// Scheduler day codes (`MON` .. `SUN`), in week order.
    pub days: Vec<&'static str>,
    pub time_hm: (u32, u32),
    pub next_run: ScheduledTime,
}

/// What is registered: the one-time shutdown and the weekly shutdown, when present.
pub struct ScheduleSnapshot {
    pub once: Option<ScheduledTime>,
    pub weekly: Option<WeeklyInfo>,
}

/// Task Scheduler names of the two shutdown tasks.
pub const TASK_ONCE: &'static str = "BDO_Auto_Shutdown_Once";
pub const TASK_WEEKLY: &'static str = "BDO_Auto_Shutdown_Weekly";

pub open spec fn invalid_input(r: Result<(), Error>, m: Seq<char>) -> bool {
    r matches Err(Error::InvalidInput(x)) && x@ == m
}

// ---------------------------------------------------------------------------
// Date and time fields (checked byte by byte, as the scheduler receives them)

/// Why a one-time shutdown date is refused: not `YYYY-MM-DD` by bytes, a field that does
/// not parse, or a day that does not exist.
pub open spec fn date_input_error(b: Seq<char>) -> Option<Seq<char>> {
    if b.len() != 10 || b[4] != '-' || b[7] != '-' {
        Some("날짜 형식이 올바르지 않습니다. 예: 2026-05-20"@)
    } else if parse_i32_spec(b.take(4)) is None {
        Some("연도 형식 오류."@)
    } else if parse_u32_spec(b.subrange(5, 7)) is None {
        Some("월 형식 오류."@)
    } else if parse_u32_spec(b.skip(8)) is None {
        Some("일 형식 오류."@)
    } else if !date_exists(parse_i32_spec(b.take(4))->0, parse_u32_spec(b.subrange(5, 7))->0, parse_u32_spec(b.skip(8))->0) {
        Some("존재하지 않는 날짜입니다. 예: 2026-05-20"@)
    } else {
        None
    }
}

pub fn validate_date_input(date: &str) -> (r: Result<(), Error>)
    ensures
        match date_input_error(latin1(date.spec_bytes())) {
            None => r is Ok,
            Some(m) => invalid_input(r, m),
        },
{
    let c = bytes_as_chars(date.as_bytes());
    if c.len() != 10 || c[4] != '-' || c[7] != '-' {
        return Err(Error::InvalidInput(owned("날짜 형식이 올바르지 않습니다. 예: 2026-05-20")));
    }
    assert(c@.subrange(0, 4) == c@.take(4));
    assert(c@.subrange(8, 10) == c@.skip(8));
    let y = match parse_i32(&c.as_slice()[0..4]) {
        Some(v) => v,
        None => return Err(Error::InvalidInput(owned("연도 형식 오류."))),
    };
    let mo = match parse_u32(&c.as_slice()[5..7]) {
        Some(v) => v,
        None => return Err(Error::InvalidInput(owned("월 형식 오류."))),
    };
    let da = match parse_u32(&c.as_slice()[8..10]) {
        Some(v) => v,
        None => return Err(Error::InvalidInput(owned("일 형식 오류."))),
    };
    if !naive_date_exists(y, mo, da) {
        return Err(Error::InvalidInput(owned("존재하지 않는 날짜입니다. 예: 2026-05-20")));
    }
    Ok(())
}

/// Why a shutdown time is refused: not two `:`-separated fields of two bytes each, a
/// field that does not parse, or an hour above 23 or a minute above 59.
pub open spec fn time_input_error(b: Seq<char>) -> Option<Seq<char>> {
    let parts = split_char(b, ':');
    if parts.len() != 2 || parts[0].len() != 2 || parts[1].len() != 2 {
        Some("시간 형식이 올바르지 않습니다. 예: 23:30"@)
    } else if parse_u32_spec(parts[0]) is None {
        Some("시 형식 오류."@)
    } else if parse_u32_spec(parts[1]) is None {
        Some("분 형식 오류."@)
    } else if parse_u32_spec(parts[0])->0 > 23 || parse_u32_spec(parts[1])->0 > 59 {
        Some("시간 범위 오류 (시: 00-23, 분: 00-59)."@)
    } else {
        None
    }
}

pub fn validate_time_input(time: &str) -> (r: Result<(), Error>)
    ensures
        match time_input_error(latin1(time.spec_bytes())) {
            None => r is Ok,
            Some(m) => invalid_input(r, m),
        },
{
    let c = bytes_as_chars(time.as_bytes());
    let parts = split_chars(c.as_slice(), ':');
    if parts.len() != 2 || parts[0].len() != 2 || parts[1].len() != 2 {
        return Err(Error::InvalidInput(owned("시간 형식이 올바르지 않습니다. 예: 23:30")));
    }
    assert(parts@[0]@ == split_char(c@, ':')[0]);
    assert(parts@[1]@ == split_char(c@, ':')[1]);
    let hour = match parse_u32(parts[0].as_slice()) {
        Some(v) => v,
        None => return Err(Error::InvalidInput(owned("시 형식 오류."))),
    };
    let min = match parse_u32(parts[1].as_slice()) {
        Some(v) => v,
        None => return Err(Error::InvalidInput(owned("분 형식 오류."))),
    };
    if hour > 23 || min > 59 {
        return Err(Error::InvalidInput(owned("시간 범위 오류 (시: 00-23, 분: 00-59).")));
    }
    Ok(())
}

// ---------------------------------------------------------------------------
// Registering

/// The task action: the system's `shutdown.exe`, by absolute path, shutting down at once.
pub open spec fn shutdown_action_text(shutdown_exe: Seq<char>) -> Seq<char> {
    shutdown_exe + " /s /f /t 0"@
}

pub fn shutdown_action(shutdown_exe: &str) -> (r: String)
    ensures
        r@ == shutdown_action_text(shutdown_exe@),
{
    let mut s = owned(shutdown_exe);
    push_str(&mut s, " /s /f /t 0");
    s
}

pub open spec fn once_task_args(date: Seq<char>, time: Seq<char>, action: Seq<char>) -> Seq<Seq<char>> {
    seq!["/create"@, "/tn"@, TASK_ONCE@, "/tr"@, action, "/sc"@, "once"@, "/sd"@, date, "/st"@, time, "/f"@]
}

pub open spec fn weekly_task_args(days: Seq<char>, time: Seq<char>, action: Seq<char>) -> Seq<Seq<char>> {
    seq!["/create"@, "/tn"@, TASK_WEEKLY@, "/tr"@, action, "/sc"@, "weekly"@, "/d"@, days, "/st"@, time, "/f"@]
}

pub open spec fn query_args(task: Seq<char>) -> Seq<Seq<char>> {
    seq!["/query"@, "/tn"@, task]
}

/// Asks `schtasks` whether `task` exists: the query must start and succeed.
pub fn task_exists<F>(schtasks: &F, task: &str) -> (r: bool)
    where
        F: Fn(Vec<String>) -> Result<CommandOutput, String>,
    requires
        forall|args: Vec<String>| string_views(args@) == query_args(task@) ==> call_requires(*schtasks, (args,)),
    ensures
        found_by_query(*schtasks, task@, r),
{
    let items: [&str; 3] = ["/query", "/tn", task];
    let args = string_list(&items);
    assert(str_views(items@) == query_args(task@));
    let out = schtasks(args);
    let r = match &out {
        Ok(o) => o.success,
        Err(_) => false,
    };
    r
}

/// The outcome of a `schtasks /create` run: the spawn failed, it failed, or it succeeded
/// and the task is then found.
pub open spec fn creation_outcome(
    run: Result<CommandOutput, String>,
    found: bool,
    failed: Error,
    r: Result<(), Error>,
) -> bool {
    match run {
        Err(m) => r matches Err(Error::SchtasksSpawn(x)) && x@ == m@,
        Ok(o) => if o.success && found { r is Ok } else { r == Err::<(), Error>(failed) },
    }
}

/// `found` is what asking `schtasks` about `task` answered.
pub open spec fn found_by_query<F: Fn(Vec<String>) -> Result<CommandOutput, String>>(schtasks: F, task: Seq<char>, found: bool) -> bool {
    exists|args: Vec<String>, out: Result<CommandOutput, String>|
        call_ensures(schtasks, (args,), out) && string_views(args@) == query_args(task)
        && found == (out matches Ok(o) && o.success)
}

/// The one-time shutdown's date and time pass their checks: only then is `schtasks` run.
pub open spec fn once_input_valid(date: &str, time: &str) -> bool {
    date_input_error(latin1(date.spec_bytes())) is None && time_input_error(latin1(time.spec_bytes())) is None
}

/// The weekly shutdown names a day and its time passes the check: only then is
/// `schtasks` run.
pub open spec fn weekly_input_valid(days: Seq<&str>, time: &str) -> bool {
    days.len() > 0 && time_input_valid(time)
}

/// The time passes its check.
pub open spec fn time_input_valid(time: &str) -> bool {
    time_input_error(latin1(time.spec_bytes())) is None
}

/// What registering the one-time shutdown at `date` `time` came to: a refused date or
/// time, or the outcome of `schtasks /create` with the task checked afterwards.
pub open spec fn once_registration<F: Fn(Vec<String>) -> Result<CommandOutput, String>>(
    date: &str,
    time: &str,
    shutdown_exe: Seq<char>,
    schtasks: F,
    r: Result<(), Error>,
) -> bool {
    &&& date_input_error(latin1(date.spec_bytes())) matches Some(m) ==> invalid_input(r, m)
    &&& date_input_error(latin1(date.spec_bytes())) is None ==> match time_input_error(latin1(time.spec_bytes())) {
        Some(m) => invalid_input(r, m),
        None => exists|args: Vec<String>, run: Result<CommandOutput, String>, found: bool|
            call_ensures(schtasks, (args,), run)
            && string_views(args@) == once_task_args(date@, time@, shutdown_action_text(shutdown_exe))
            && (run matches Ok(o) && o.success ==> found_by_query(schtasks, TASK_ONCE@, found))
            && creation_outcome(run, found, Error::RegisterOnceFailed, r),
    }
}

/// Registers the one-time shutdown at `date` `time`. The date and the time are checked
/// first; then `schtasks` creates the task, which must succeed and the task must then be
/// found. `schtasks` runs the system's `schtasks.exe` with the given arguments and
/// reports its output, or why it could not start.
pub fn register_once_shutdown<F>(date: &str, time: &str, shutdown_exe: &str, schtasks: &F) -> (r: Result<(), Error>)
    where
        F: Fn(Vec<String>) -> Result<CommandOutput, String>,
    requires
        forall|args: Vec<String>| once_input_valid(date, time) ==> call_requires(*schtasks, (args,)),
    ensures
        once_registration(date, time, shutdown_exe@, *schtasks, r),
{
    match validate_date_input(date) {
        Err(e) => return Err(e),
        Ok(()) => {},
    }
    match validate_time_input(time) {
        Err(e) => return Err(e),
        Ok(()) => {},
    }
    let action = shutdown_action(shutdown_exe);
    let items: [&str; 12] = ["/create", "/tn", TASK_ONCE, "/tr", action.as_str(), "/sc", "once", "/sd", date, "/st", time, "/f"];
    let args = string_list(&items);
    assert(str_views(items@) == once_task_args(date@, time@, shutdown_action_text(shutdown_exe@)));
    let run = schtasks(args);
    let (r, found) = match &run {
        Err(m) => (Err(Error::SchtasksSpawn(m.clone())), false),
        Ok(o) => {
            if o.success {
                let found = task_exists(schtasks, TASK_ONCE);
                if found { (Ok(()), found) } else { (Err(Error::RegisterOnceFailed), found) }
            } else {
                (Err(Error::RegisterOnceFailed), false)
            }
        },
    };
    assert(creation_outcome(run, found, Error::RegisterOnceFailed, r));
    r
}

/// What registering the weekly shutdown on `days` at `time` came to: no day, a refused
/// time, or the outcome of `schtasks /create` with the task checked afterwards.
pub open spec fn weekly_registration<F: Fn(Vec<String>) -> Result<CommandOutput, String>>(
    days: Seq<&str>,
    time: &str,
    shutdown_exe: Seq<char>,
    schtasks: F,
    r: Result<(), Error>,
) -> bool {
    &&& days.len() == 0 ==> invalid_input(r, "요일을 하나 이상 선택하세요."@)
    &&& days.len() > 0 ==> match time_input_error(latin1(time.spec_bytes())) {
        Some(m) => invalid_input(r, m),
        None => exists|args: Vec<String>, run: Result<CommandOutput, String>, found: bool|
            call_ensures(schtasks, (args,), run)
            && string_views(args@) == weekly_task_args(join(str_views(days), ","@), time@, shutdown_action_text(shutdown_exe))
            && (run matches Ok(o) && o.success ==> found_by_query(schtasks, TASK_WEEKLY@, found))
            && creation_outcome(run, found, Error::RegisterWeeklyFailed, r),
    }
}

/// Registers the weekly shutdown on `days` (scheduler codes such as `MON`) at `time`.
/// At least one day is needed and the time is checked first; the days go to
/// `schtasks` joined by commas.
pub fn register_weekly_shutdown<F>(days: &[&str], time: &str, shutdown_exe: &str, schtasks: &F) -> (r: Result<(), Error>)
    where
        F: Fn(Vec<String>) -> Result<CommandOutput, String>,
    requires
        forall|args: Vec<String>| weekly_input_valid(days@, time) ==> call_requires(*schtasks, (args,)),
    ensures
        weekly_registration(days@, time, shutdown_exe@, *schtasks, r),
{
    if days.len() == 0 {
        return Err(Error::InvalidInput(owned("요일을 하나 이상 선택하세요.")));
    }
    match validate_time_input(time) {
        Err(e) => return Err(e),
        Ok(()) => {},
    }
    let days_str = join_strs(days, ",");
    let action = shutdown_action(shutdown_exe);
    let items: [&str; 12] = ["/create", "/tn", TASK_WEEKLY, "/tr", action.as_str(), "/sc", "weekly", "/d", days_str.as_str(), "/st", time, "/f"];
    let args = string_list(&items);
    assert(str_views(items@) == weekly_task_args(join(str_views(days@), ","@), time@, shutdown_action_text(shutdown_exe@)));
    let run = schtasks(args);
    let (r, found) = match &run {
        Err(m) => (Err(Error::SchtasksSpawn(m.clone())), false),
        Ok(o) => {
            if o.success {
                let found = task_exists(schtasks, TASK_WEEKLY);
                if found { (Ok(()), found) } else { (Err(Error::RegisterWeeklyFailed), found) }
            } else {
                (Err(Error::RegisterWeeklyFailed), false)
            }
        },
    };
    assert(creation_outcome(run, found, Error::RegisterWeeklyFailed, r));
    r
}

// ---------------------------------------------------------------------------
// Reading the registered tasks

/// The text `str::to_lowercase` makes of `s`.
pub uninterp spec fn unicode_lowercase(s: Seq<char>) -> Seq<char>;

/// Calls `str::to_lowercase` (Unicode lower-case mapping). The result is named, not
/// described.
#[verifier::external_body]
fn lowercase(s: &str) -> (r: String)
    ensures
        r@ == unicode_lowercase(s@),
{
    s.to_lowercase()
}

/// The year, month, day, hour and minute that chrono reads from `s` with format `fmt`.
pub uninterp spec fn naive_datetime_fields(s: Seq<char>, fmt: Seq<char>) -> Option<(i32, u32, u32, u32, u32)>;

/// Calls `chrono::NaiveDateTime::parse_from_str(s, fmt)` and reads the date and the time
/// back with chrono's getters. The parse rules are named, not described; of a parsed
/// value only the getters' documented ranges are stated.
#[verifier::external_body]
fn parse_naive_datetime(s: &str, fmt: &str) -> (r: Option<(i32, u32, u32, u32, u32)>)
    ensures
        r == naive_datetime_fields(s@, fmt@),
        r matches Some((y, mo, d, h, mi)) ==> 1 <= mo <= 12 && 1 <= d <= 31 && h < 24 && mi < 60,
{
    match chrono::NaiveDateTime::parse_from_str(s, fmt) {
        Ok(dt) => Some((dt.year(), dt.month(), dt.day(), dt.hour(), dt.minute())),
        Err(_) => None,
    }
}

pub open spec fn xml_query_args(task: Seq<char>) -> Seq<Seq<char>> {
    seq!["/query"@, "/tn"@, task, "/xml"@]
}

/// The task's XML definition as `schtasks /query /xml` prints it; empty when the task
/// does not exist or `schtasks` fails.
pub fn fetch_task_xml<F>(schtasks: &F, task: &str) -> (r: String)
    where
        F: Fn(Vec<String>) -> Result<CommandOutput, String>,
    requires
        forall|args: Vec<String>| string_views(args@) == xml_query_args(task@) ==> call_requires(*schtasks, (args,)),
    ensures
        exists|args: Vec<String>, out: Result<CommandOutput, String>|
            call_ensures(*schtasks, (args,), out) && string_views(args@) == xml_query_args(task@)
            && r@ == (match out {
                Ok(o) => if o.success { utf8_lossy(o.stdout@) } else { Seq::<char>::empty() },
                Err(_) => Seq::<char>::empty(),
            }),
{
    let items: [&str; 4] = ["/query", "/tn", task, "/xml"];
    let args = string_list(&items);
    assert(str_views(items@) == xml_query_args(task@));
    let out = schtasks(args);
    match &out {
        Ok(o) => if o.success { decode_lossy(o.stdout.as_slice()) } else { String::new() },
        Err(_) => String::new(),
    }
}

/// The start of a task: its `<StartBoundary>` read as `YYYY-MM-DDTHH:MM:SS`.
pub open spec fn start_boundary(xml: Seq<char>) -> Option<(i32, u32, u32, u32, u32)> {
    match tag_block(xml, "<StartBoundary>"@, "</StartBoundary>"@) {
        None => None,
        Some(iso) => naive_datetime_fields(iso, "%Y-%m-%dT%H:%M:%S"@),
    }
}

pub fn parse_start_boundary(xml: &str) -> (r: Option<(i32, u32, u32, u32, u32)>)
    ensures
        r == start_boundary(xml@),
{
    let x = chars_of(xml);
    let open = chars_of("<StartBoundary>");
    let close = chars_of("</StartBoundary>");
    match tag_block_chars(x.as_slice(), open.as_slice(), close.as_slice()) {
        None => None,
        Some(iso) => {
            let iso = string_of(iso.as_slice());
            parse_naive_datetime(iso.as_str(), "%Y-%m-%dT%H:%M:%S")
        },
    }
}

/// The English day names Monday (0) .. Sunday (6).
pub open spec fn day_name(i: int) -> Seq<char> {
    if i == 0 { "Monday"@ } else if i == 1 { "Tuesday"@ } else if i == 2 { "Wednesday"@ }
    else if i == 3 { "Thursday"@ } else if i == 4 { "Friday"@ } else if i == 5 { "Saturday"@ }
    else { "Sunday"@ }
}

/// The scheduler's day codes MON (0) .. SUN (6).
pub open spec fn day_code(i: int) -> Seq<char> {
    if i == 0 { "MON"@ } else if i == 1 { "TUE"@ } else if i == 2 { "WED"@ }
    else if i == 3 { "THU"@ } else if i == 4 { "FRI"@ } else if i == 5 { "SAT"@ }
    else { "SUN"@ }
}

/// Day `i` appears in the block as an empty element, with or without a space.
pub open spec fn day_listed(block: Seq<char>, i: int) -> bool {
    has_sub(block, "<"@ + day_name(i) + "/>"@) || has_sub(block, "<"@ + day_name(i) + " />"@)
}

/// The codes of the days among the first `n` that the block lists, Monday first.
pub open spec fn listed_days(block: Seq<char>, n: int) -> Seq<Seq<char>>
    decreases n,
{
    if n <= 0 {
        Seq::empty()
    } else {
        let p = listed_days(block, n - 1);
        if day_listed(block, n - 1) { p.push(day_code(n - 1)) } else { p }
    }
}

pub open spec fn days_of_week(xml: Seq<char>) -> Seq<Seq<char>> {
    match tag_block(xml, "<DaysOfWeek>"@, "</DaysOfWeek>"@) {
        None => Seq::empty(),
        Some(block) => listed_days(block, 7),
    }
}

fn element_listed(block: &[char], name: &str) -> (r: bool)
    ensures
        r == (has_sub(block@, "<"@ + name@ + "/>"@) || has_sub(block@, "<"@ + name@ + " />"@)),
{
    let mut a = owned("<");
    push_str(&mut a, name);
    push_str(&mut a, "/>");
    let mut b = owned("<");
    push_str(&mut b, name);
    push_str(&mut b, " />");
    let ac = chars_of(a.as_str());
    let bc = chars_of(b.as_str());
    chars_have_sub(block, ac.as_slice()) || chars_have_sub(block, bc.as_slice())
}

/// The days of a weekly task's `<DaysOfWeek>` block, as codes in week order.
pub fn parse_days_of_week(xml: &str) -> (r: Vec<&'static str>)
    ensures
        str_views(r@) == days_of_week(xml@),
{
    let x = chars_of(xml);
    let open = chars_of("<DaysOfWeek>");
    let close = chars_of("</DaysOfWeek>");
    let block = match tag_block_chars(x.as_slice(), open.as_slice(), close.as_slice()) {
        None => return Vec::new(),
        Some(b) => b,
    };
    let names: [&'static str; 7] = ["Monday", "Tuesday", "Wednesday", "Thursday", "Friday", "Saturday", "Sunday"];
    let codes: [&'static str; 7] = ["MON", "TUE", "WED", "THU", "FRI", "SAT", "SUN"];
    let mut r: Vec<&'static str> = Vec::new();
    let mut i: usize = 0;
    while i < 7
        invariant
            i <= 7,
            forall|k: int| 0 <= k < 7 ==> #[trigger] names@[k]@ == day_name(k) && codes@[k]@ == day_code(k),
            str_views(r@) == listed_days(block@, i as int),
        decreases 7 - i,
    {
        let listed = element_listed(block.as_slice(), names[i]);
        assert(names@[i as int]@ == day_name(i as int));
        assert(codes@[i as int]@ == day_code(i as int));
        let ghost before = r@;
        if listed {
            r.push(codes[i]);
            assert(str_views(r@) == str_views(before).push(codes@[i as int]@));
        }
        i = i + 1;
    }
    r
}

/// The weekday index (Monday 0 .. Sunday 6) of a scheduler day code.
pub open spec fn weekday_index(code: Seq<char>) -> Option<u8> {
    if code == day_code(0) { Some(0u8) } else if code == day_code(1) { Some(1u8) } else if code == day_code(2) { Some(2u8) }
    else if code == day_code(3) { Some(3u8) } else if code == day_code(4) { Some(4u8) } else if code == day_code(5) { Some(5u8) }
    else if code == day_code(6) { Some(6u8) } else { None }
}

pub fn weekday_from_str(code: &str) -> (r: Option<u8>)
    ensures
        r == weekday_index(code@),
{
    let c = chars_of(code);
    let names: [&'static str; 7] = ["MON", "TUE", "WED", "THU", "FRI", "SAT", "SUN"];
    let mut i: usize = 0;
    while i < 7
        invariant
            i <= 7,
            c@ == code@,
            forall|k: int| 0 <= k < 7 ==> #[trigger] names@[k]@ == day_code(k),
            forall|k: int| 0 <= k < i ==> code@ != day_code(k),
        decreases 7 - i,
    {
        let n = chars_of(names[i]);
        assert(names@[i as int]@ == day_code(i as int));
        if crate::text::chars_eq(c.as_slice(), n.as_slice()) {
            return Some(i as u8);
        }
        i = i + 1;
    }
    None
}

/// Some code in `days` names weekday `w`.
pub open spec fn targets_weekday(days: Seq<&str>, w: int) -> bool {
    exists|i: int| 0 <= i < days.len() && weekday_index(#[trigger] days[i]@) == Some(w as u8)
}

pub open spec fn has_target(days: Seq<&str>) -> bool {
    exists|i: int| 0 <= i < days.len() && (#[trigger] weekday_index(days[i]@)) is Some
}

fn day_targets(days: &[&str]) -> (r: [bool; 7])
    ensures
        forall|w: int| 0 <= w < 7 ==> r@[w] == targets_weekday(days@, w),
{
    let mut t: [bool; 7] = [false; 7];
    let mut i: usize = 0;
    while i < days.len()
        invariant
            i <= days.len(),
            forall|w: int| 0 <= w < 7 ==> t@[w] == exists|j: int| 0 <= j < i && weekday_index(#[trigger] days@[j]@) == Some(w as u8),
        decreases days.len() - i,
    {
        match weekday_from_str(days[i]) {
            Some(w) => {
                t[w as usize] = true;
            },
            None => {},
        }
        i = i + 1;
    }
    t
}

/// On day `j` ahead the shutdown time exists but is not after now.
pub open spec fn not_after_now<F: Fn(u32) -> Option<i64>>(resolve: F, j: u32) -> bool {
    exists|x: i64| x <= 0 && call_ensures(resolve, (j,), Some(x))
}

/// On day `k` ahead, a named weekday, `resolve` gave nothing, and every named weekday
/// before it was not after now.
pub open spec fn search_stopped<F: Fn(u32) -> Option<i64>>(days: Seq<&str>, weekday_now: u8, resolve: F, k: u32) -> bool {
    &&& k <= 7
    &&& targets_weekday(days, (weekday_now + k) % 7)
    &&& call_ensures(resolve, (k,), None)
    &&& forall|j: u32| j < k && targets_weekday(days, (weekday_now + j) % 7) ==> #[trigger] not_after_now(resolve, j)
}

/// The next weekly shutdown after now, as `(days ahead, seconds from now)`. Today and the
/// next seven days are tried in turn; on each day whose weekday `days` names, `resolve`
/// gives the seconds from now to `hour:minute` local time on that day, or nothing when
/// that local time does not exist or is ambiguous, which ends the search. The first
/// such time after now wins. No valid day, or a time outside 00:00..23:59, gives nothing.
pub fn compute_next_weekly_run<F>(days: &[&str], hour: u32, minute: u32, weekday_now: u8, resolve: &F) -> (r: Option<(u32, i64)>)
    where
        F: Fn(u32) -> Option<i64>,
    requires
        weekday_now < 7,
        forall|k: u32| call_requires(*resolve, (k,)),
    ensures
        !has_target(days@) ==> r is None,
        (hour > 23 || minute > 59) ==> r is None,
        r matches Some((k, secs)) ==> k <= 7 && secs > 0
            && targets_weekday(days@, (weekday_now + k) % 7)
            && call_ensures(*resolve, (k,), Some(secs))
            && forall|j: u32| j < k && targets_weekday(days@, (weekday_now + j) % 7)
                ==> #[trigger] not_after_now(*resolve, j),
        r is None && has_target(days@) && hour <= 23 && minute <= 59 ==>
            (exists|k: u32| #[trigger] search_stopped(days@, weekday_now, *resolve, k))
            || forall|j: u32| j <= 7 && targets_weekday(days@, (weekday_now + j) % 7)
                ==> #[trigger] not_after_now(*resolve, j),
{
    let targets = day_targets(days);
    let mut any = false;
    let mut w: usize = 0;
    while w < 7
        invariant
            w <= 7,
            forall|v: int| 0 <= v < 7 ==> targets@[v] == targets_weekday(days@, v),
            any == exists|v: int| 0 <= v < w && targets@[v],
        decreases 7 - w,
    {
        if targets[w] {
            any = true;
        }
        w = w + 1;
    }
    if !any {
        assert forall|i: int| 0 <= i < days@.len() implies !(#[trigger] weekday_index(days@[i]@) is Some) by {
            if weekday_index(days@[i]@) is Some {
                let v = weekday_index(days@[i]@)->0 as int;
                assert(targets_weekday(days@, v));
                assert(targets@[v]);
            }
        }
        return None;
    }
    if hour > 23 || minute > 59 {
        return None;
    }
    let mut offset: u32 = 0;
    while offset <= 7
        invariant
            offset <= 8,
            weekday_now < 7,
            hour <= 23 && minute <= 59,
            forall|k: u32| call_requires(*resolve, (k,)),
            forall|v: int| 0 <= v < 7 ==> targets@[v] == targets_weekday(days@, v),
            forall|j: u32| j < offset && targets_weekday(days@, (weekday_now + j) % 7)
                ==> #[trigger] not_after_now(*resolve, j),
        decreases 8 - offset,
    {
        let wd: usize = ((weekday_now as u32 + offset) % 7) as usize;
        if targets[wd] {
            match resolve(offset) {
                None => {
                    assert(search_stopped(days@, weekday_now, *resolve, offset));
                    return None;
                },
                Some(secs) => {
                    if secs > 0 {
                        return Some((offset, secs));
                    }
                },
            }
        }
        offset = offset + 1;
    }
    None
}

// ---------------------------------------------------------------------------
// Cancelling

pub open spec fn delete_args(task: Seq<char>) -> Seq<Seq<char>> {
    seq!["/delete"@, "/tn"@, task, "/f"@]
}

/// What `schtasks` printed when a deletion failed, trimmed: standard output, then errors.
pub open spec fn delete_detail(out: CommandOutput) -> Seq<char> {
    trim(utf8_lossy(out.stdout@)) + trim(utf8_lossy(out.stderr@))
}

/// The failure text says that the task is not there (Korean or English wording).
pub open spec fn says_task_missing(detail: Seq<char>) -> bool {
    has_sub(detail, "찾을 수 없"@) || has_sub(detail, "존재하지 않"@)
        || has_sub(unicode_lowercase(detail), "cannot find"@) || has_sub(unicode_lowercase(detail), "does not exist"@)
}

/// The error for a failed deletion: "not found" when the output says so, else the
/// output itself.
pub fn delete_failure(out: &CommandOutput) -> (r: Error)
    ensures
        says_task_missing(delete_detail(*out)) ==> r is TaskNotFound,
        !says_task_missing(delete_detail(*out)) ==> (r matches Error::DeleteFailed(d) && d@ == delete_detail(*out)),
{
    let o = decode_lossy(out.stdout.as_slice());
    let e = decode_lossy(out.stderr.as_slice());
    let mut detail = trim_str(o.as_str());
    let e_trim = trim_str(e.as_str());
    push_str(&mut detail, e_trim.as_str());
    let low = lowercase(detail.as_str());
    let d = chars_of(detail.as_str());
    let l = chars_of(low.as_str());
    let p1 = chars_of("찾을 수 없");
    let p2 = chars_of("존재하지 않");
    let p3 = chars_of("cannot find");
    let p4 = chars_of("does not exist");
    if chars_have_sub(d.as_slice(), p1.as_slice()) || chars_have_sub(d.as_slice(), p2.as_slice())
        || chars_have_sub(l.as_slice(), p3.as_slice()) || chars_have_sub(l.as_slice(), p4.as_slice())
    {
        return Error::TaskNotFound;
    }
    Error::DeleteFailed(detail)
}

/// `schtasks` may be given `args`: the delete command for `task` only once the query
/// found the task, any other command freely.
pub open spec fn delete_gate<F: Fn(Vec<String>) -> Result<CommandOutput, String>>(schtasks: F, task: Seq<char>, args: Vec<String>) -> bool {
    string_views(args@) == delete_args(task) ==> found_by_query(schtasks, task, true)
}

/// What deleting `task` came to: "not found" when the query does not find it, else the
/// outcome of `schtasks /delete`.
pub open spec fn deletion_outcome<F: Fn(Vec<String>) -> Result<CommandOutput, String>>(
    schtasks: F,
    task: Seq<char>,
    r: Result<(), Error>,
) -> bool {
    exists|found: bool| found_by_query(schtasks, task, found)
        && (!found ==> r matches Err(Error::TaskNotFound))
        && (found ==> exists|args: Vec<String>, run: Result<CommandOutput, String>|
            call_ensures(schtasks, (args,), run) && string_views(args@) == delete_args(task)
            && match run {
                Err(m) => r matches Err(Error::SchtasksSpawn(x)) && x@ == m@,
                Ok(o) => if o.success {
                    r is Ok
                } else if says_task_missing(delete_detail(o)) {
                    r matches Err(Error::TaskNotFound)
                } else {
                    r matches Err(Error::DeleteFailed(d)) && d@ == delete_detail(o)
                },
            })
}

/// Deletes `task`: it must exist (checked with a query first); then `schtasks /delete`
/// runs, and a failure is reported by `delete_failure`.
pub fn delete_task<F>(schtasks: &F, task: &str) -> (r: Result<(), Error>)
    where
        F: Fn(Vec<String>) -> Result<CommandOutput, String>,
    requires
        forall|args: Vec<String>| delete_gate(*schtasks, task@, args) ==> call_requires(*schtasks, (args,)),
    ensures
        deletion_outcome(*schtasks, task@, r),
{
    assert forall|args: Vec<String>| string_views(args@) == query_args(task@) implies call_requires(*schtasks, (args,)) by {
        assert(query_args(task@).len() != delete_args(task@).len());
        assert(delete_gate(*schtasks, task@, args));
    }
    let found = task_exists(schtasks, task);
    if !found {
        return Err(Error::TaskNotFound);
    }
    let items: [&str; 4] = ["/delete", "/tn", task, "/f"];
    let args = string_list(&items);
    assert(str_views(items@) == delete_args(task@));
    assert(delete_gate(*schtasks, task@, args));
    let run = schtasks(args);
    match &run {
        Err(m) => Err(Error::SchtasksSpawn(m.clone())),
        Ok(o) => if o.success { Ok(()) } else { Err(delete_failure(o)) },
    }
}

/// Cancels the one-time shutdown task.
pub fn cancel_once<F>(schtasks: &F) -> (r: Result<(), Error>)
    where
        F: Fn(Vec<String>) -> Result<CommandOutput, String>,
    requires
        forall|args: Vec<String>| delete_gate(*schtasks, TASK_ONCE@, args) ==> call_requires(*schtasks, (args,)),
    ensures
        deletion_outcome(*schtasks, TASK_ONCE@, r),
{
    delete_task(schtasks, TASK_ONCE)
}

/// Cancels the weekly shutdown task.
pub fn cancel_weekly<F>(schtasks: &F) -> (r: Result<(), Error>)
    where
        F: Fn(Vec<String>) -> Result<CommandOutput, String>,
    requires
        forall|args: Vec<String>| delete_gate(*schtasks, TASK_WEEKLY@, args) ==> call_requires(*schtasks, (args,)),
    ensures
        deletion_outcome(*schtasks, TASK_WEEKLY@, r),
{
    delete_task(schtasks, TASK_WEEKLY)
}

} // verus!
