//! Message time stamps as shown beside each message: the local time of day
//! for today's messages, the local month, day and time for older ones.

use vstd::prelude::*;
use chrono::{Datelike, TimeZone, Timelike};
use crate::text::{digit, digit_char};

verus! {

/// A local calendar date and time of day, to the minute.
#[derive(Clone, Copy, Debug, PartialEq, Eq, Structural)]
pub struct LocalTime {
    pub year: i32,
    pub month: u32,
    pub day: u32,
    pub hour: u32,
    pub minute: u32,
}

/// The ranges that chrono documents for the fields of a date and time.
pub open spec fn in_range(t: LocalTime) -> bool {
    &&& 1 <= t.month <= 12
    &&& 1 <= t.day <= 31
    &&& t.hour < 24
    &&& t.minute < 60
}

/// The proleptic Gregorian date of a day counted from 1970-01-01:
/// (year, month, day).
pub open spec fn civil_date(days: int) -> (int, int, int) {
    let z = days + 719468;
    let era = z / 146097;
    let doe = z - era * 146097;
    let yoe = (doe - doe / 1460 + doe / 36524 - doe / 146096) / 365;
    let doy = doe - (365 * yoe + yoe / 4 - yoe / 100);
    let mp = (5 * doy + 2) / 153;
    let day = doy - (153 * mp + 2) / 5 + 1;
    let month = if mp < 10 {
        mp + 3
    } else {
        mp - 9
    };
    let year = yoe + era * 400 + if month <= 2 {
        1int
    } else {
        0int
    };
    (year, month, day)
}

/// The reading `t` is the calendar date and time, to the minute, of the
/// Unix second `secs` moved by `off` seconds.
pub open spec fn reads_at(t: LocalTime, secs: int, off: int) -> bool {
    let s = secs + off;
    let (y, mo, d) = civil_date(s / 86400);
    let sod = s % 86400;
    &&& t.year == y
    &&& t.month == mo
    &&& t.day == d
    &&& t.hour == sod / 3600
    &&& t.minute == (sod % 3600) / 60
}

/// The reading `t` is the calendar date and time of `secs` at some offset
/// of less than a day, as every time zone offset is.
pub open spec fn local_reading(t: LocalTime, secs: int) -> bool {
    exists|off: int| -86400 < off < 86400 && #[trigger] reads_at(t, secs, off)
}

/// Unix seconds that chrono turns into a date: well within its range of
/// about 262,000 years either side of year 0.
pub open spec fn chrono_range(secs: i64) -> bool {
    -8_000_000_000_000 <= secs <= 8_000_000_000_000
}

/// `chrono::Local.timestamp_opt(secs, 0)`, taken apart into its local date and
/// time. For seconds in range chrono gives exactly one time (the UTC date
/// and time of `secs` moved by the machine's offset, a `FixedOffset` of less
/// than a day); out of its range it gives none. Which offset applies depends
/// on the machine's time zone, so only its size is stated. chrono panics
/// when the machine's time zone data cannot be read into an offset, which
/// no argument can rule out.
#[verifier::external_body]
fn local_time_of(secs: i64) -> (r: Option<LocalTime>)
    ensures
        r matches Some(t) ==> in_range(t) && local_reading(t, secs as int),
        chrono_range(secs) ==> r is Some,
{
    match chrono::Local.timestamp_opt(secs, 0) {
        chrono::LocalResult::Single(dt) => Some(
            LocalTime {
                year: dt.year(),
                month: dt.month(),
                day: dt.day(),
                hour: dt.hour(),
                minute: dt.minute(),
            },
        ),
        chrono::LocalResult::Ambiguous(_, _) => None,
        chrono::LocalResult::None => None,
    }
}

/// `chrono::Local::now()`, taken apart into its local date and time. It
/// depends on the clock and the time zone of the machine; only the documented
/// field ranges are stated.
#[verifier::external_body]
fn local_now() -> (r: LocalTime)
    ensures
        in_range(r),
{
    let dt = chrono::Local::now();
    LocalTime {
        year: dt.year(),
        month: dt.month(),
        day: dt.day(),
        hour: dt.hour(),
        minute: dt.minute(),
    }
}

/// A number below one hundred as two decimal digits (`%02`).
pub open spec fn two_digits(n: u32) -> Seq<char> {
    seq![digit_char((n / 10) as nat), digit_char((n % 10) as nat)]
}

/// Whether two times fall on the same local date.
pub open spec fn same_date(a: LocalTime, b: LocalTime) -> bool {
    a.year == b.year && a.month == b.month && a.day == b.day
}

/// The label of a message time: `HH:MM` on the day it is read, `mm/dd HH:MM`
/// on another day, and `??:??` where the time has no local reading.
pub open spec fn time_label(t: Option<LocalTime>, now: LocalTime) -> Seq<char> {
    match t {
        None => seq!['?', '?', ':', '?', '?'],
        Some(t) => {
            let clock = two_digits(t.hour) + seq![':'] + two_digits(t.minute);
            if same_date(t, now) {
                clock
            } else {
                two_digits(t.month) + seq!['/'] + two_digits(t.day) + seq![' '] + clock
            }
        },
    }
}

fn push_two_digits(out: &mut Vec<char>, n: u32)
    requires
        n < 100,
    ensures
        final(out)@ == old(out)@ + two_digits(n),
{
    let ghost start = out@;
    out.push(digit((n / 10) as usize));
    out.push(digit((n % 10) as usize));
    assert(out@ =~= start + two_digits(n));
}

/// The label of a message time, given its local reading and the local
/// reading of the present moment.
pub fn time_text(t: Option<LocalTime>, now: LocalTime) -> (r: String)
    requires
        t matches Some(x) ==> in_range(x),
    ensures
        r@ == time_label(t, now),
{
    let mut out: Vec<char> = Vec::new();
    match t {
        None => {
            out.push('?');
            out.push('?');
            out.push(':');
            out.push('?');
            out.push('?');
            assert(out@ =~= time_label(t, now));
        },
        Some(x) => {
            if !(x.year == now.year && x.month == now.month && x.day == now.day) {
                push_two_digits(&mut out, x.month);
                out.push('/');
                push_two_digits(&mut out, x.day);
                out.push(' ');
            }
            let ghost head = out@;
            push_two_digits(&mut out, x.hour);
            out.push(':');
            push_two_digits(&mut out, x.minute);
            proof {
                let clock = two_digits(x.hour) + seq![':'] + two_digits(x.minute);
                assert(out@ =~= head + clock);
                if same_date(x, now) {
                    assert(head =~= Seq::<char>::empty());
                    assert(out@ =~= time_label(t, now));
                } else {
                    assert(out@ =~= time_label(t, now));
                }
            }
        },
    }
    crate::text::string_of(&out)
}

/// The label shown beside a message sent at `secs` (Unix seconds), read in
/// the machine's time zone against the present moment.
pub fn format_timestamp(secs: i64) -> (r: String)
    ensures
        exists|t: Option<LocalTime>, now: LocalTime| r@ == time_label(t, now),
        chrono_range(secs) ==> exists|t: LocalTime, now: LocalTime|
            in_range(t) && local_reading(t, secs as int) && r@ == time_label(Some(t), now),
{
    let t = local_time_of(secs);
    let now = local_now();
    time_text(t, now)
}

} // verus!
