use vstd::prelude::*;
use crate::clock::{date_text, format_date, format_time, time_text};
use crate::cmd::CommandOutput;
use crate::commands::{status, ShutdownCommandResponseDto, ShutdownInputDto, ShutdownKindDto, ShutdownStateDto, WeekdayDto};
use crate::shutdown::{self, ScheduleSnapshot, ScheduledTime, WeeklyInfo};
use crate::text::{dec, dec2, join, owned, push_dec, push_dec2, push_str, str_views};

verus! {

/// How long until a scheduled shutdown, in the largest whole units: under a minute is
/// "soon", then minutes, hours (and minutes), days (and hours).
pub open spec fn remaining_text(secs: int) -> Seq<char> {
    if secs < 60 {
        "곧 실행"@
    } else {
        let total_min = secs / 60;
        if total_min < 60 {
            dec(total_min as nat) + "분 남음"@
        } else {
            let total_hours = total_min / 60;
            let mins = total_min % 60;
            if total_hours < 24 {
                if mins == 0 {
                    dec(total_hours as nat) + "시간 남음"@
                } else {
                    dec(total_hours as nat) + "시간 "@ + dec(mins as nat) + "분 남음"@
                }
            } else {
                let days = total_hours / 24;
                let hours = total_hours % 24;
                if hours == 0 {
                    dec(days as nat) + "일 남음"@
                } else {
                    dec(days as nat) + "일 "@ + dec(hours as nat) + "시간 남음"@
                }
            }
        }
    }
}

pub fn fmt_remaining_from_duration(secs: i64) -> (r: String)
    ensures
        r@ == remaining_text(secs as int),
{
    if secs < 60 {
        return owned("곧 실행");
    }
    let total_min: u64 = (secs / 60) as u64;
    let mut s = String::new();
    if total_min < 60 {
        push_dec(&mut s, total_min);
        push_str(&mut s, "분 남음");
        return s;
    }
    let total_hours = total_min / 60;
    let mins = total_min % 60;
    if total_hours < 24 {
        push_dec(&mut s, total_hours);
        if mins == 0 {
            push_str(&mut s, "시간 남음");
        } else {
            push_str(&mut s, "시간 ");
            push_dec(&mut s, mins);
            push_str(&mut s, "분 남음");
        }
        return s;
    }
    let days = total_hours / 24;
    let hours = total_hours % 24;
    push_dec(&mut s, days);
    if hours == 0 {
        push_str(&mut s, "일 남음");
    } else {
        push_str(&mut s, "일 ");
        push_dec(&mut s, hours);
        push_str(&mut s, "시간 남음");
    }
    s
}

/// The Korean one-letter name of a scheduler day code; `?` for an unknown code.
pub open spec fn day_letter(code: Seq<char>) -> Seq<char> {
    if code == "MON"@ { "월"@ } else if code == "TUE"@ { "화"@ } else if code == "WED"@ { "수"@ }
    else if code == "THU"@ { "목"@ } else if code == "FRI"@ { "금"@ } else if code == "SAT"@ { "토"@ }
    else if code == "SUN"@ { "일"@ } else { "?"@ }
}

pub open spec fn day_letters(days: Seq<&str>) -> Seq<Seq<char>> {
    days.map_values(|d: &str| day_letter(d@))
}

fn day_letter_of(code: &str) -> (r: &'static str)
    ensures
        r@ == day_letter(code@),
{
    let c = crate::text::chars_of(code);
    let eq = |lit: &str| -> (b: bool)
        ensures b == (code@ == lit@),
    {
        let l = crate::text::chars_of(lit);
        crate::text::chars_eq(c.as_slice(), l.as_slice())
    };
    if eq("MON") { "월" } else if eq("TUE") { "화" } else if eq("WED") { "수" }
    else if eq("THU") { "목" } else if eq("FRI") { "금" } else if eq("SAT") { "토" }
    else if eq("SUN") { "일" } else { "?" }
}

/// The days of a weekly shutdown in Korean, joined by `/`.
pub fn fmt_weekly_days(days: &[&str]) -> (r: String)
    ensures
        r@ == join(day_letters(days@), "/"@),
{
    let mut letters: Vec<&str> = Vec::new();
    let mut i: usize = 0;
    while i < days.len()
        invariant
            i <= days.len(),
            str_views(letters@) == day_letters(days@.take(i as int)),
        decreases days.len() - i,
    {
        letters.push(day_letter_of(days[i]));
        assert(day_letters(days@.take(i as int + 1)) == day_letters(days@.take(i as int)).push(day_letter(days@[i as int]@)));
        i = i + 1;
    }
    assert(days@.take(days@.len() as int) == days@);
    crate::text::join_strs(letters.as_slice(), "/")
}

/// `HH:MM` of an hour and a minute (each at least two digits).
pub open spec fn hm_text(h: u32, m: u32) -> Seq<char> {
    dec2(h as nat) + ":"@ + dec2(m as nat)
}

fn fmt_hm(h: u32, m: u32) -> (r: String)
    ensures
        r@ == hm_text(h, m),
{
    let mut s = String::new();
    push_dec2(&mut s, h as u64);
    push_str(&mut s, ":");
    push_dec2(&mut s, m as u64);
    s
}

/// `매주 <days> HH:MM (다음 <remaining>)`
pub open spec fn weekly_text(info: WeeklyInfo) -> Seq<char> {
    "매주 "@ + join(day_letters(info.days@), "/"@) + " "@ + hm_text(info.time_hm.0, info.time_hm.1)
        + " (다음 "@ + remaining_text(info.next_run.secs_from_now as int) + ")"@
}

pub fn fmt_weekly(info: &WeeklyInfo) -> (r: String)
    ensures
        r@ == weekly_text(*info),
{
    let mut s = owned("매주 ");
    let days = fmt_weekly_days(info.days.as_slice());
    push_str(&mut s, days.as_str());
    push_str(&mut s, " ");
    let hm = fmt_hm(info.time_hm.0, info.time_hm.1);
    push_str(&mut s, hm.as_str());
    push_str(&mut s, " (다음 ");
    let rem = fmt_remaining_from_duration(info.next_run.secs_from_now);
    push_str(&mut s, rem.as_str());
    push_str(&mut s, ")");
    s
}

/// `YYYY-MM-DD HH:MM (<remaining>)`
pub open spec fn once_text(t: ScheduledTime) -> Seq<char> {
    date_text(t.at) + " "@ + time_text(t.at) + " ("@ + remaining_text(t.secs_from_now as int) + ")"@
}

pub fn fmt_once(t: &ScheduledTime) -> (r: String)
    ensures
        r@ == once_text(*t),
{
    let mut s = format_date(&t.at);
    push_str(&mut s, " ");
    let tm = format_time(&t.at);
    push_str(&mut s, tm.as_str());
    push_str(&mut s, " (");
    let rem = fmt_remaining_from_duration(t.secs_from_now);
    push_str(&mut s, rem.as_str());
    push_str(&mut s, ")");
    s
}

pub open spec fn weekday_dto_of(code: Seq<char>) -> Option<WeekdayDto> {
    if code == "MON"@ { Some(WeekdayDto::Mon) } else if code == "TUE"@ { Some(WeekdayDto::Tue) }
    else if code == "WED"@ { Some(WeekdayDto::Wed) } else if code == "THU"@ { Some(WeekdayDto::Thu) }
    else if code == "FRI"@ { Some(WeekdayDto::Fri) } else if code == "SAT"@ { Some(WeekdayDto::Sat) }
    else if code == "SUN"@ { Some(WeekdayDto::Sun) } else { None }
}

pub fn weekday_dto_from_code(code: &str) -> (r: Option<WeekdayDto>)
    ensures
        r == weekday_dto_of(code@),
{
    let c = crate::text::chars_of(code);
    let eq = |lit: &str| -> (b: bool)
        ensures b == (code@ == lit@),
    {
        let l = crate::text::chars_of(lit);
        crate::text::chars_eq(c.as_slice(), l.as_slice())
    };
    if eq("MON") { Some(WeekdayDto::Mon) } else if eq("TUE") { Some(WeekdayDto::Tue) }
    else if eq("WED") { Some(WeekdayDto::Wed) } else if eq("THU") { Some(WeekdayDto::Thu) }
    else if eq("FRI") { Some(WeekdayDto::Fri) } else if eq("SAT") { Some(WeekdayDto::Sat) }
    else if eq("SUN") { Some(WeekdayDto::Sun) } else { None }
}

pub open spec fn weekday_code_text(day: WeekdayDto) -> Seq<char> {
    match day {
        WeekdayDto::Mon => "MON"@,
        WeekdayDto::Tue => "TUE"@,
        WeekdayDto::Wed => "WED"@,
        WeekdayDto::Thu => "THU"@,
        WeekdayDto::Fri => "FRI"@,
        WeekdayDto::Sat => "SAT"@,
        WeekdayDto::Sun => "SUN"@,
    }
}

pub fn weekday_code(day: WeekdayDto) -> (r: &'static str)
    ensures
        r@ == weekday_code_text(day),
{
    match day {
        WeekdayDto::Mon => "MON",
        WeekdayDto::Tue => "TUE",
        WeekdayDto::Wed => "WED",
        WeekdayDto::Thu => "THU",
        WeekdayDto::Fri => "FRI",
        WeekdayDto::Sat => "SAT",
        WeekdayDto::Sun => "SUN",
    }
}

/// The weekday buttons of the known codes, in order (unknown codes are skipped).
pub open spec fn known_weekdays(days: Seq<&str>) -> Seq<WeekdayDto>
    decreases days.len(),
{
    if days.len() == 0 {
        Seq::empty()
    } else {
        let p = known_weekdays(days.drop_last());
        match weekday_dto_of(days.last()@) {
            Some(d) => p.push(d),
            None => p,
        }
    }
}

/// `r` shows the registered shutdowns of `snapshot`.
pub open spec fn is_shutdown_state(snapshot: ScheduleSnapshot, r: ShutdownStateDto) -> bool {
    &&& match snapshot.once {
        Some(t) => r.once_text@ == once_text(t) && r.once_active
            && (r.once_date matches Some(d) && d@ == date_text(t.at))
            && (r.once_time matches Some(x) && x@ == time_text(t.at)),
        None => r.once_text@ == Seq::<char>::empty() && !r.once_active && r.once_date is None && r.once_time is None,
    }
    &&& match snapshot.weekly {
        Some(w) => r.weekly_text@ == weekly_text(w) && r.weekly_active
            && r.weekly_days@ == known_weekdays(w.days@)
            && (r.weekly_time matches Some(x) && x@ == hm_text(w.time_hm.0, w.time_hm.1)),
        None => r.weekly_text@ == Seq::<char>::empty() && !r.weekly_active && r.weekly_days@.len() == 0
            && r.weekly_time is None,
    }
}

pub fn shutdown_state_from_snapshot(snapshot: ScheduleSnapshot) -> (r: ShutdownStateDto)
    ensures
        is_shutdown_state(snapshot, r),
{
    let (once_text, once_active, once_date, once_time) = match &snapshot.once {
        Some(t) => (fmt_once(t), true, Some(format_date(&t.at)), Some(format_time(&t.at))),
        None => (String::new(), false, None, None),
    };
    let (weekly_text, weekly_active, weekly_days, weekly_time) = match &snapshot.weekly {
        Some(info) => {
            let mut days: Vec<WeekdayDto> = Vec::new();
            let mut i: usize = 0;
            while i < info.days.len()
                invariant
                    i <= info.days@.len(),
                    days@ == known_weekdays(info.days@.take(i as int)),
                decreases info.days.len() - i,
            {
                assert(info.days@.take(i as int + 1).drop_last() == info.days@.take(i as int));
                match weekday_dto_from_code(info.days[i]) {
                    Some(d) => days.push(d),
                    None => {},
                }
                i = i + 1;
            }
            assert(info.days@.take(info.days@.len() as int) == info.days@);
            (fmt_weekly(info), true, days, Some(fmt_hm(info.time_hm.0, info.time_hm.1)))
        },
        None => (String::new(), false, Vec::new(), None),
    };
    ShutdownStateDto { once_text, once_active, once_date, once_time, weekly_text, weekly_active, weekly_days, weekly_time }
}

pub fn shutdown_command_response(current: &str, shutdown: ShutdownStateDto) -> (r: ShutdownCommandResponseDto)
    ensures
        r.status.current@ == current@,
        r.status.previous@ == Seq::<char>::empty(),
        r.shutdown == shutdown,
{
    ShutdownCommandResponseDto { status: status(current), shutdown }
}

/// The reply to a shutdown registration from its outcome.
pub open spec fn register_reply(kind: ShutdownKindDto, date: Seq<char>, time: Seq<char>, result: Result<(), shutdown::Error>) -> Seq<char> {
    match result {
        Ok(()) => match kind {
            ShutdownKindDto::Once => "단발 종료 예약 등록 완료: "@ + date + " "@ + time + "."@,
            ShutdownKindDto::Weekly => "매주 반복 종료 예약 등록 완료 (매주 "@ + time + ")."@,
        },
        Err(e) => "오류: "@ + shutdown::error_text(e),
    }
}

pub fn register_message(kind: ShutdownKindDto, date: &str, time: &str, result: &Result<(), shutdown::Error>) -> (r: String)
    ensures
        r@ == register_reply(kind, date@, time@, *result),
{
    match result {
        Ok(()) => match kind {
            ShutdownKindDto::Once => {
                let mut s = owned("단발 종료 예약 등록 완료: ");
                push_str(&mut s, date);
                push_str(&mut s, " ");
                push_str(&mut s, time);
                push_str(&mut s, ".");
                s
            },
            ShutdownKindDto::Weekly => {
                let mut s = owned("매주 반복 종료 예약 등록 완료 (매주 ");
                push_str(&mut s, time);
                push_str(&mut s, ").");
                s
            },
        },
        Err(e) => {
            let mut s = owned("오류: ");
            let m = e.message();
            push_str(&mut s, m.as_str());
            s
        },
    }
}

pub open spec fn weekday_codes(days: Seq<WeekdayDto>) -> Seq<Seq<char>> {
    days.map_values(|d: WeekdayDto| weekday_code_text(d))
}

/// The form's trimmed values pass the checks of the registration they ask for: only
/// then is `schtasks` run.
pub open spec fn shutdown_form_accepted(input: ShutdownInputDto) -> bool {
    match input.kind {
        ShutdownKindDto::Once => exists|d: &str, t: &str|
            d@ == crate::schedule_view::opt_trim(input.date) && t@ == crate::text::trim(input.time@)
            && d@.len() > 0 && #[trigger] shutdown::once_input_valid(d, t),
        ShutdownKindDto::Weekly => exists|t: &str|
            t@ == crate::text::trim(input.time@) && input.days@.len() > 0
            && #[trigger] shutdown::time_input_valid(t),
    }
}

/// Registers the shutdown the form describes and says how it went. The time (and the
/// date of a one-time shutdown) are trimmed first; a one-time shutdown without a date is
/// refused before anything runs.
pub fn register_shutdown<F>(input: &ShutdownInputDto, shutdown_exe: &str, schtasks: &F) -> (r: String)
    where
        F: Fn(Vec<String>) -> Result<CommandOutput, String>,
    requires
        forall|args: Vec<String>| shutdown_form_accepted(*input) ==> call_requires(*schtasks, (args,)),
    ensures
        input.kind == ShutdownKindDto::Once && crate::schedule_view::opt_trim(input.date).len() == 0
            ==> r@ == "날짜를 입력하세요."@,
        input.kind == ShutdownKindDto::Once && crate::schedule_view::opt_trim(input.date).len() > 0
            ==> exists|d: &str, t: &str, res: Result<(), shutdown::Error>|
                d@ == crate::schedule_view::opt_trim(input.date) && t@ == crate::text::trim(input.time@)
                && #[trigger] shutdown::once_registration(d, t, shutdown_exe@, *schtasks, res)
                && r@ == register_reply(input.kind, d@, t@, res),
        input.kind == ShutdownKindDto::Weekly
            ==> exists|days: Seq<&str>, t: &str, res: Result<(), shutdown::Error>|
                str_views(days) == weekday_codes(input.days@) && t@ == crate::text::trim(input.time@)
                && #[trigger] shutdown::weekly_registration(days, t, shutdown_exe@, *schtasks, res)
                && r@ == register_reply(input.kind, Seq::<char>::empty(), t@, res),
{
    let time = crate::text::trim_str(input.time.as_str());
    match input.kind {
        ShutdownKindDto::Once => {
            let date = match &input.date {
                Some(d) => crate::text::trim_str(d.as_str()),
                None => String::new(),
            };
            if date.as_str().is_empty() {
                return owned("날짜를 입력하세요.");
            }
            let ds: &str = date.as_str();
            let ts: &str = time.as_str();
            assert forall|args: Vec<String>| shutdown::once_input_valid(ds, ts) implies call_requires(*schtasks, (args,)) by {
                assert(shutdown_form_accepted(*input));
            }
            let res = shutdown::register_once_shutdown(ds, ts, shutdown_exe, schtasks);
            let r = register_message(ShutdownKindDto::Once, ds, ts, &res);
            assert(shutdown::once_registration(ds, ts, shutdown_exe@, *schtasks, res));
            r
        },
        ShutdownKindDto::Weekly => {
            let mut days: Vec<&str> = Vec::new();
            let mut i: usize = 0;
            while i < input.days.len()
                invariant
                    i <= input.days@.len(),
                    crate::text::str_views(days@) == weekday_codes(input.days@.take(i as int)),
                decreases input.days.len() - i,
            {
                days.push(weekday_code(input.days[i]));
                assert(weekday_codes(input.days@.take(i as int + 1)) == weekday_codes(input.days@.take(i as int)).push(weekday_code_text(input.days@[i as int])));
                i = i + 1;
            }
            let ts: &str = time.as_str();
            assert(input.days@.take(input.days@.len() as int) == input.days@);
            assert forall|args: Vec<String>| shutdown::weekly_input_valid(days@, ts) implies call_requires(*schtasks, (args,)) by {
                assert(str_views(days@).len() == days@.len());
                assert(shutdown_form_accepted(*input));
            }
            let res = shutdown::register_weekly_shutdown(days.as_slice(), ts, shutdown_exe, schtasks);
            proof {
                reveal_strlit("");
            }
            let r = register_message(ShutdownKindDto::Weekly, "", ts, &res);
            assert(input.days@.take(input.days@.len() as int) == input.days@);
            assert(shutdown::weekly_registration(days@, ts, shutdown_exe@, *schtasks, res));
            r
        },
    }
}

/// The reply to cancelling one shutdown schedule from its outcome.
pub open spec fn cancel_reply(kind: ShutdownKindDto, result: Result<(), shutdown::Error>) -> Seq<char> {
    match result {
        Ok(()) => match kind {
            ShutdownKindDto::Once => "단발 종료 예약이 취소되었습니다."@,
            ShutdownKindDto::Weekly => "매주 반복 종료 예약이 취소되었습니다."@,
        },
        Err(e) => "오류: "@ + shutdown::error_text(e),
    }
}

pub fn cancel_message(kind: ShutdownKindDto, result: &Result<(), shutdown::Error>) -> (r: String)
    ensures
        r@ == cancel_reply(kind, *result),
{
    match result {
        Ok(()) => match kind {
            ShutdownKindDto::Once => owned("단발 종료 예약이 취소되었습니다."),
            ShutdownKindDto::Weekly => owned("매주 반복 종료 예약이 취소되었습니다."),
        },
        Err(e) => {
            let mut s = owned("오류: ");
            let m = e.message();
            push_str(&mut s, m.as_str());
            s
        },
    }
}

/// The scheduler task of a kind of shutdown.
pub open spec fn task_of(kind: ShutdownKindDto) -> Seq<char> {
    match kind {
        ShutdownKindDto::Once => shutdown::TASK_ONCE@,
        ShutdownKindDto::Weekly => shutdown::TASK_WEEKLY@,
    }
}

/// Cancels the chosen shutdown schedule and says how it went.
pub fn cancel_shutdown<F>(kind: ShutdownKindDto, schtasks: &F) -> (r: String)
    where
        F: Fn(Vec<String>) -> Result<CommandOutput, String>,
    requires
        forall|args: Vec<String>| shutdown::delete_gate(*schtasks, task_of(kind), args) ==> call_requires(*schtasks, (args,)),
    ensures
        exists|res: Result<(), shutdown::Error>| r@ == cancel_reply(kind, res)
            && #[trigger] shutdown::deletion_outcome(*schtasks, task_of(kind), res),
{
    let res = match kind {
        ShutdownKindDto::Once => {
            assert(task_of(kind) == shutdown::TASK_ONCE@);
            shutdown::cancel_once(schtasks)
        },
        ShutdownKindDto::Weekly => {
            assert(task_of(kind) == shutdown::TASK_WEEKLY@);
            shutdown::cancel_weekly(schtasks)
        },
    };
    assert(shutdown::deletion_outcome(*schtasks, task_of(kind), res));
    cancel_message(kind, &res)
}

} // verus!
