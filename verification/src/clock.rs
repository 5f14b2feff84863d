use vstd::prelude::*;
use chrono::{Datelike, Timelike};
use crate::schedule::LocalClock;
use crate::text::{dec, dec2, push_dec, push_dec2};

verus! {

/// Calendar and clock fields of a local date-time.
#[derive(Debug, Clone, Copy)]
pub struct CalendarFields {
    pub year: i32,
    pub month: u32,
    pub day: u32,
    pub hour: u32,
    pub minute: u32,
    /// 0 = Monday .. 6 = Sunday
    pub weekday: u8,
}

pub open spec fn fields_in_range(f: CalendarFields) -> bool {
    &&& 1 <= f.month <= 12
    &&& 1 <= f.day <= 31
    &&& f.hour < 24
    &&& f.minute < 60
    &&& f.weekday < 7
}

/// Calls `chrono::Local::now` and takes the instant 24 hours earlier with
/// `DateTime::checked_sub_signed(TimeDelta::days(1))`; both are read back through chrono's
/// `Datelike`/`Timelike` getters. The values depend on the clock and the machine's time
/// zone, so only the getters' documented ranges are stated: month 1..=12, day 1..=31,
/// hour 0..=23, minute 0..=59, weekday 0..=6 counted from Monday.
#[verifier::external_body]
pub(crate) fn local_now_and_day_before() -> (r: (CalendarFields, Option<CalendarFields>))
    ensures
        fields_in_range(r.0),
        r.1 matches Some(b) ==> fields_in_range(b),
{
    let now = chrono::Local::now();
    let read = |t: &chrono::DateTime<chrono::Local>| CalendarFields {
        year: t.year(),
        month: t.month(),
        day: t.day(),
        hour: t.hour(),
        minute: t.minute(),
        weekday: t.weekday().num_days_from_monday() as u8,
    };
    let before = now.checked_sub_signed(chrono::TimeDelta::days(1)).map(|t| read(&t));
    (read(&now), before)
}

/// `%Y`: four digits zero-padded, with a sign before years outside 0..=9999.
pub open spec fn year_text(y: i32) -> Seq<char> {
    if y < 0 {
        seq!['-'] + pad4((-(y as int)) as nat)
    } else if y > 9999 {
        seq!['+'] + dec(y as nat)
    } else {
        pad4(y as nat)
    }
}

pub open spec fn pad4(n: nat) -> Seq<char> {
    if n < 10 {
        seq!['0', '0', '0'] + dec(n)
    } else if n < 100 {
        seq!['0', '0'] + dec(n)
    } else if n < 1000 {
        seq!['0'] + dec(n)
    } else {
        dec(n)
    }
}

/// `YYYY-MM-DD`
pub open spec fn date_text(f: CalendarFields) -> Seq<char> {
    year_text(f.year) + seq!['-'] + dec2(f.month as nat) + seq!['-'] + dec2(f.day as nat)
}

/// `HH:MM`
pub open spec fn time_text(f: CalendarFields) -> Seq<char> {
    dec2(f.hour as nat) + seq![':'] + dec2(f.minute as nat)
}

fn push_pad4(s: &mut String, n: u64)
    ensures
        final(s)@ == old(s)@ + pad4(n as nat),
{
    if n < 10 {
        s.push('0');
        s.push('0');
        s.push('0');
    } else if n < 100 {
        s.push('0');
        s.push('0');
    } else if n < 1000 {
        s.push('0');
    }
    push_dec(s, n);
    proof {
        if n < 10 {
            assert(old(s)@ + pad4(n as nat) == old(s)@.push('0').push('0').push('0') + dec(n as nat));
        } else if n < 100 {
            assert(old(s)@ + pad4(n as nat) == old(s)@.push('0').push('0') + dec(n as nat));
        } else if n < 1000 {
            assert(old(s)@ + pad4(n as nat) == old(s)@.push('0') + dec(n as nat));
        }
    }
}

pub fn format_date(f: &CalendarFields) -> (r: String)
    ensures
        r@ == date_text(*f),
{
    let mut s = String::new();
    if f.year < 0 {
        s.push('-');
        let a: u64 = (0i64 - f.year as i64) as u64;
        push_pad4(&mut s, a);
    } else if f.year > 9999 {
        s.push('+');
        push_dec(&mut s, f.year as u64);
    } else {
        push_pad4(&mut s, f.year as u64);
    }
    let ghost y = s@;
    s.push('-');
    push_dec2(&mut s, f.month as u64);
    s.push('-');
    push_dec2(&mut s, f.day as u64);
    assert(y == year_text(f.year));
    assert(s@ == date_text(*f));
    s
}

pub fn format_time(f: &CalendarFields) -> (r: String)
    ensures
        r@ == time_text(*f),
{
    let mut s = String::new();
    push_dec2(&mut s, f.hour as u64);
    s.push(':');
    push_dec2(&mut s, f.minute as u64);
    assert(s@ == time_text(*f));
    s
}

/// `c` shows the reading `now` and the reading 24 hours before it, `before`.
pub open spec fn reading_of(c: LocalClock, now: CalendarFields, before: CalendarFields) -> bool {
    &&& fields_in_range(now) && fields_in_range(before)
    &&& c.today@ == date_text(now) && c.time_now@ == time_text(now) && c.weekday == now.weekday
    &&& c.yesterday@ == date_text(before) && c.yweekday == before.weekday
}

/// `c` is what `local_clock` can give: some local date and time, and the one 24 hours
/// before it, written out.
pub open spec fn is_clock_reading(c: LocalClock) -> bool {
    exists|now: CalendarFields, before: CalendarFields| #[trigger] reading_of(c, now, before)
}

/// Reads the local clock.
pub fn local_clock() -> (r: LocalClock)
    ensures
        is_clock_reading(r),
{
    let (f, before) = local_now_and_day_before();
    let b = match before {
        Some(t) => t,
        None => f,
    };
    let r = LocalClock {
        today: format_date(&f),
        weekday: f.weekday,
        time_now: format_time(&f),
        yesterday: format_date(&b),
        yweekday: b.weekday,
    };
    assert(reading_of(r, f, b));
    r
}

} // verus!
