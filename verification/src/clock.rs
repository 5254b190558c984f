//! The start time of the claim: reading it, the countdown to it, and moving
//! it to the next day.

use vstd::prelude::*;
use vstd::string::*;
use crate::text::{decimal, digit_char, is_digit, same_text, trim, trimmed, zero_pad, zero_padded};

verus! {

/// Nanoseconds in a second.
pub const NANOS_PER_SEC: u32 = 1_000_000_000;

/// Seconds in a day.
pub const SECS_PER_DAY: i64 = 86_400;

/// The earliest date-time `chrono` can hold (January 1, 262144 BCE, 00:00:00),
/// in seconds since 1970-01-01 00:00:00.
pub const MIN_STAMP_SECS: i64 = -8_334_601_228_800;

/// The latest date-time `chrono` can hold (December 31, 262142 CE, 23:59:59),
/// in seconds since 1970-01-01 00:00:00.
pub const MAX_STAMP_SECS: i64 = 8_210_266_876_799;

/// The layout of the start time: the date of today, a space, and the time the
/// user typed (`HH:MM:SS`, optionally followed by `.` and a fraction).
pub const TASK_TIME_FORMAT: &'static str = "%Y-%m-%d %H:%M:%S%.f";

/// A date and time without time zone: whole seconds since 1970-01-01 00:00:00
/// on the same clock, and the nanoseconds past that second (from one second
/// on during a leap second).
#[derive(Clone, Copy, Debug, PartialEq, Eq, Structural)]
pub struct NaiveStamp {
    pub secs: i64,
    pub nanos: u32,
}

/// A signed span of time, kept as `chrono` keeps it: whole seconds (rounded
/// down) and the nanoseconds past them.
#[derive(Clone, Copy, Debug, PartialEq, Eq, Structural)]
pub struct TimeSpan {
    pub secs: i64,
    pub nanos: u32,
}

/// `s` is a date-time that `chrono` can hold. As `chrono` documents, a leap
/// second may extend any second (not only the last of a minute: such stamps
/// come from offsets with fractional minutes), so every second may carry up to
/// two seconds of nanoseconds.
pub open spec fn stamp_in_range(s: NaiveStamp) -> bool {
    &&& MIN_STAMP_SECS <= s.secs <= MAX_STAMP_SECS
    &&& s.nanos < 2 * NANOS_PER_SEC
}

/// `t` is a span that `chrono` can hold: at most `i64::MAX` milliseconds
/// either way.
pub open spec fn span_in_range(t: TimeSpan) -> bool {
    &&& t.nanos < NANOS_PER_SEC
    &&& (t.secs > -9_223_372_036_854_776 || (t.secs == -9_223_372_036_854_776 && t.nanos
        >= 193_000_000))
    &&& (t.secs < 9_223_372_036_854_775 || (t.secs == 9_223_372_036_854_775 && t.nanos
        <= 807_000_000))
}

impl NaiveStamp {
    /// The stamp of `secs` and `nanos`, when `chrono` can hold it.
    pub fn from_parts(secs: i64, nanos: u32) -> (r: Option<NaiveStamp>)
        ensures
            match r {
                Some(s) => s == (NaiveStamp { secs, nanos }) && stamp_in_range(s),
                None => !stamp_in_range(NaiveStamp { secs, nanos }),
            },
    {
        let s = NaiveStamp { secs, nanos };
        if MIN_STAMP_SECS <= secs && secs <= MAX_STAMP_SECS && nanos < 2 * NANOS_PER_SEC {
            Some(s)
        } else {
            None
        }
    }
}

/// The second of its day at which `s` falls (0 to 86399).
pub open spec fn second_of_day(s: NaiveStamp) -> int {
    (s.secs - MIN_STAMP_SECS) % (SECS_PER_DAY as int)
}

/// `later - earlier`, as `chrono` measures it: a leap second is counted only
/// when the span runs through it.
pub open spec fn span_between(later: NaiveStamp, earlier: NaiveStamp) -> TimeSpan {
    let day1 = second_of_day(later);
    let day2 = second_of_day(earlier);
    let leap: int = if day1 > day2 && earlier.nanos >= NANOS_PER_SEC {
        1
    } else if day1 < day2 && later.nanos >= NANOS_PER_SEC {
        -1
    } else {
        0
    };
    let frac = later.nanos - earlier.nanos;
    TimeSpan {
        secs: (later.secs - earlier.secs + leap + frac / (NANOS_PER_SEC as int)) as i64,
        nanos: (frac % (NANOS_PER_SEC as int)) as u32,
    }
}

/// `later - earlier`.
pub fn duration_since(later: &NaiveStamp, earlier: &NaiveStamp) -> (r: TimeSpan)
    requires
        stamp_in_range(*later),
        stamp_in_range(*earlier),
    ensures
        r == span_between(*later, *earlier),
        span_in_range(r),
        later.nanos < NANOS_PER_SEC && earlier.nanos < NANOS_PER_SEC ==> r.nanos < NANOS_PER_SEC
            && r.secs * 1_000_000_000 + r.nanos == (later.secs - earlier.secs) * 1_000_000_000
            + later.nanos - earlier.nanos,
{
    let day1 = ((later.secs - MIN_STAMP_SECS) as u64 % (SECS_PER_DAY as u64)) as i64;
    let day2 = ((earlier.secs - MIN_STAMP_SECS) as u64 % (SECS_PER_DAY as u64)) as i64;
    let leap: i64 = if day1 > day2 && earlier.nanos >= NANOS_PER_SEC {
        1
    } else if day1 < day2 && later.nanos >= NANOS_PER_SEC {
        -1
    } else {
        0
    };
    let frac: i64 = later.nanos as i64 - earlier.nanos as i64;
    let (carry, rest): (i64, i64) = if frac < -(NANOS_PER_SEC as i64) {
        (-2, frac + 2 * NANOS_PER_SEC as i64)
    } else if frac < 0 {
        (-1, frac + NANOS_PER_SEC as i64)
    } else if frac < NANOS_PER_SEC as i64 {
        (0, frac)
    } else {
        (1, frac - NANOS_PER_SEC as i64)
    };
    TimeSpan { secs: later.secs - earlier.secs + leap + carry, nanos: rest as u32 }
}

/// Outside leap seconds, the span between two stamps is their exact
/// difference in nanoseconds, kept as whole seconds and the nanoseconds past
/// them.
pub proof fn lemma_span_is_exact_difference(later: NaiveStamp, earlier: NaiveStamp)
    requires
        stamp_in_range(later),
        stamp_in_range(earlier),
        later.nanos < NANOS_PER_SEC,
        earlier.nanos < NANOS_PER_SEC,
    ensures
        span_between(later, earlier).nanos < NANOS_PER_SEC,
        span_between(later, earlier).secs * 1_000_000_000 + span_between(later, earlier).nanos
            == (later.secs - earlier.secs) * 1_000_000_000 + later.nanos - earlier.nanos,
{
}

/// Counting down never loses or gains time: between two moments outside leap
/// seconds, the time left shrinks by exactly the time that passed.
pub proof fn lemma_time_left_shrinks_by_elapsed(start: NaiveStamp, now1: NaiveStamp, now2: NaiveStamp)
    requires
        stamp_in_range(start),
        stamp_in_range(now1),
        stamp_in_range(now2),
        start.nanos < NANOS_PER_SEC,
        now1.nanos < NANOS_PER_SEC,
        now2.nanos < NANOS_PER_SEC,
    ensures
        ({
            let left1 = span_between(start, now1);
            let left2 = span_between(start, now2);
            let passed = span_between(now2, now1);
            left1.secs * 1_000_000_000 + left1.nanos == left2.secs * 1_000_000_000 + left2.nanos
                + passed.secs * 1_000_000_000 + passed.nanos
        }),
{
    lemma_span_is_exact_difference(start, now1);
    lemma_span_is_exact_difference(start, now2);
    lemma_span_is_exact_difference(now2, now1);
}

/// A span is over (zero or negative).
pub open spec fn span_is_over(t: TimeSpan) -> bool {
    t.secs < 0 || (t.secs == 0 && t.nanos == 0)
}

/// A span is negative.
pub open spec fn span_is_negative(t: TimeSpan) -> bool {
    t.secs < 0
}

/// `a / b`, rounded toward zero (`b > 0`).
pub open spec fn div_toward_zero(a: int, b: int) -> int {
    if a >= 0 {
        a / b
    } else {
        -((-a) / b)
    }
}

/// The remainder of `a / b` rounded toward zero: it takes the sign of `a`.
pub open spec fn rem_toward_zero(a: int, b: int) -> int {
    if a >= 0 {
        a % b
    } else {
        -((-a) % b)
    }
}

/// The whole seconds of `t`, rounded toward zero.
pub open spec fn whole_seconds(t: TimeSpan) -> int {
    if t.secs < 0 && t.nanos > 0 {
        t.secs + 1
    } else {
        t.secs as int
    }
}

/// The nanoseconds of `t` past its whole seconds; negative for negative spans.
pub open spec fn sub_second_nanos(t: TimeSpan) -> int {
    if t.secs < 0 && t.nanos > 0 {
        t.nanos - NANOS_PER_SEC
    } else {
        t.nanos as int
    }
}

/// The whole milliseconds of `t`, rounded toward zero.
pub open spec fn whole_millis(t: TimeSpan) -> int {
    whole_seconds(t) * 1000 + div_toward_zero(sub_second_nanos(t), 1_000_000)
}

/// The four numbers of the countdown display: hours, minutes past the hour,
/// seconds past the minute and milliseconds past the second.
pub open spec fn countdown_fields(t: TimeSpan) -> (int, int, int, int) {
    (
        div_toward_zero(whole_seconds(t), 3600),
        rem_toward_zero(div_toward_zero(whole_seconds(t), 60), 60),
        rem_toward_zero(whole_seconds(t), 60),
        rem_toward_zero(whole_millis(t), 1000),
    )
}

/// The countdown display of `t`: `HH:MM:SS.mmm`, each number zero-padded to
/// its width (a negative number carries its sign inside the width).
pub open spec fn countdown_text(t: TimeSpan) -> Seq<char> {
    let (h, m, s, ms) = countdown_fields(t);
    zero_padded(h, 2) + ":"@ + zero_padded(m, 2) + ":"@ + zero_padded(s, 2) + "."@
        + zero_padded(ms, 3)
}

fn quot_toward_zero(a: i64, b: i64) -> (r: i64)
    requires
        b > 0,
        a > i64::MIN,
    ensures
        r == div_toward_zero(a as int, b as int),
{
    if a >= 0 {
        ((a as u64) / (b as u64)) as i64
    } else {
        -((((0 - a) as u64) / (b as u64)) as i64)
    }
}

fn rem_toward_zero_exec(a: i64, b: i64) -> (r: i64)
    requires
        b > 0,
        a > i64::MIN,
    ensures
        r == rem_toward_zero(a as int, b as int),
{
    if a >= 0 {
        ((a as u64) % (b as u64)) as i64
    } else {
        -((((0 - a) as u64) % (b as u64)) as i64)
    }
}

/// The countdown display of `t`, as `HH:MM:SS.mmm`.
pub fn format_duration(t: &TimeSpan) -> (r: String)
    requires
        span_in_range(*t),
    ensures
        r@ == countdown_text(*t),
{
    let secs: i64 = if t.secs < 0 && t.nanos > 0 {
        t.secs + 1
    } else {
        t.secs
    };
    let sub: i64 = if t.secs < 0 && t.nanos > 0 {
        t.nanos as i64 - NANOS_PER_SEC as i64
    } else {
        t.nanos as i64
    };
    let millis = secs * 1000 + quot_toward_zero(sub, 1_000_000);
    let hours = quot_toward_zero(secs, 3600);
    let minutes = rem_toward_zero_exec(quot_toward_zero(secs, 60), 60);
    let seconds = rem_toward_zero_exec(secs, 60);
    let ms = rem_toward_zero_exec(millis, 1000);
    let mut r = zero_pad(hours, 2);
    r.append(":");
    r.append(zero_pad(minutes, 2).as_str());
    r.append(":");
    r.append(zero_pad(seconds, 2).as_str());
    r.append(".");
    r.append(zero_pad(ms, 3).as_str());
    r
}

/// What the countdown shows at one moment.
pub enum Countdown {
    /// The start time is reached.
    Due,
    /// The time left, as displayed.
    Remaining(String),
}

/// The countdown at `now` toward `start`: due once no time is left, else the
/// display of the time left.
pub fn countdown_step(start: &NaiveStamp, now: &NaiveStamp) -> (r: Countdown)
    requires
        stamp_in_range(*start),
        stamp_in_range(*now),
    ensures
        span_is_over(span_between(*start, *now)) ==> r is Due,
        !span_is_over(span_between(*start, *now)) ==> (r matches Countdown::Remaining(text)
            && text@ == countdown_text(span_between(*start, *now))),
{
    let left = duration_since(start, now);
    if left.secs < 0 || (left.secs == 0 && left.nanos == 0) {
        Countdown::Due
    } else {
        Countdown::Remaining(format_duration(&left))
    }
}

/// While time is left, the countdown display reads the time left exactly,
/// to the millisecond: minutes and seconds below 60, milliseconds below 1000,
/// and together they add up to the whole milliseconds left.
pub proof fn lemma_countdown_fields_recompose(t: TimeSpan)
    requires
        span_in_range(t),
        t.secs >= 0,
    ensures
        ({
            let (h, m, s, ms) = countdown_fields(t);
            &&& h >= 0
            &&& 0 <= m < 60
            &&& 0 <= s < 60
            &&& 0 <= ms < 1000
            &&& h * 3_600_000 + m * 60_000 + s * 1000 + ms == whole_millis(t)
            &&& whole_millis(t) == t.secs * 1000 + t.nanos / 1_000_000
        }),
{
    let total = t.secs as int;
    let frac: int = t.nanos as int / 1_000_000;
    assert(0 <= frac < 1000);
    assert(whole_millis(t) == total * 1000 + frac);
    vstd::arithmetic::div_mod::lemma_fundamental_div_mod(total, 60);
    vstd::arithmetic::div_mod::lemma_fundamental_div_mod(total / 60, 60);
    vstd::arithmetic::div_mod::lemma_div_denominator(total, 60, 60);
    assert((total * 1000 + frac) % 1000 == frac) by {
        assert(total * 1000 + frac == 1000 * total + frac) by (nonlinear_arith);
    }
    assert(total / 60 >= 0 && total / 3600 >= 0) by (nonlinear_arith)
        requires total >= 0;
    assert(total == 60 * (total / 60) + total % 60);
    assert(total / 60 == 60 * (total / 3600) + (total / 60) % 60);
    assert((total / 3600) * 3_600_000 + ((total / 60) % 60) * 60_000 + (total % 60) * 1000
        == total * 1000) by (nonlinear_arith)
        requires
            total == 60 * (total / 60) + total % 60,
            total / 60 == 60 * (total / 3600) + (total / 60) % 60,
    ;
}

/// `s` reads as the countdown display: `DD:DD:DD.DDD`, twelve characters.
pub open spec fn has_clock_shape(s: Seq<char>) -> bool {
    &&& s.len() == 12
    &&& s[2] == ':' && s[5] == ':' && s[8] == '.'
    &&& forall|i: int| 0 <= i < 12 && i != 2 && i != 5 && i != 8 ==> is_digit(#[trigger] s[i])
}

proof fn lemma_digit_char_is_digit(d: int)
    requires
        0 <= d < 10,
    ensures
        is_digit(digit_char(d)),
{
    assert(('0' as u32 + d) as char as u32 == '0' as u32 + d);
}

proof fn lemma_small_decimal(n: nat)
    requires
        n < 1000,
    ensures
        decimal(n).len() == if n < 10 {
            1int
        } else if n < 100 {
            2int
        } else {
            3int
        },
        forall|i: int| 0 <= i < decimal(n).len() ==> is_digit(#[trigger] decimal(n)[i]),
    decreases n,
{
    if n < 10 {
        lemma_digit_char_is_digit(n as int);
    } else {
        lemma_small_decimal(n / 10);
        lemma_digit_char_is_digit((n % 10) as int);
        let d = decimal(n);
        assert(d == decimal(n / 10).push(digit_char((n % 10) as int)));
        assert forall|i: int| 0 <= i < d.len() implies is_digit(#[trigger] d[i]) by {
            if i < d.len() - 1 {
                assert(d[i] == decimal(n / 10)[i]);
            }
        }
    }
}

proof fn lemma_padded_digits(v: int, w: nat)
    requires
        0 <= v,
        1 <= w <= 3,
        v < if w == 1 {
            10int
        } else if w == 2 {
            100int
        } else {
            1000int
        },
    ensures
        zero_padded(v, w).len() == w,
        forall|i: int| 0 <= i < w ==> is_digit(#[trigger] zero_padded(v, w)[i]),
{
    lemma_small_decimal(v as nat);
    let digits = decimal(v as nat);
    let fill = w - digits.len();
    let zeros = Seq::new(fill as nat, |_i: int| '0');
    assert(zero_padded(v, w) =~= Seq::<char>::empty() + zeros + digits);
    assert forall|i: int| 0 <= i < w implies is_digit(#[trigger] zero_padded(v, w)[i]) by {
        if i < fill {
            assert(zero_padded(v, w)[i] == '0');
        } else {
            assert(zero_padded(v, w)[i] == digits[i - fill]);
        }
    }
}

/// Below 100 hours left, the countdown display is `DD:DD:DD.DDD`: twelve
/// characters, two-digit hours, minutes and seconds and three-digit
/// milliseconds, with no sign.
pub proof fn lemma_countdown_text_shape(t: TimeSpan)
    requires
        span_in_range(t),
        0 <= t.secs < 100 * 3600,
    ensures
        has_clock_shape(countdown_text(t)),
        countdown_text(t).subrange(0, 2) == zero_padded(t.secs as int / 3600, 2),
        countdown_text(t).subrange(3, 5) == zero_padded((t.secs as int / 60) % 60, 2),
        countdown_text(t).subrange(6, 8) == zero_padded(t.secs as int % 60, 2),
        countdown_text(t).subrange(9, 12) == zero_padded(t.nanos as int / 1_000_000, 3),
{
    lemma_countdown_fields_recompose(t);
    let (h, m, s, ms) = countdown_fields(t);
    assert(h < 100) by (nonlinear_arith)
        requires
            h == t.secs as int / 3600,
            0 <= t.secs < 100 * 3600,
    ;
    lemma_padded_digits(h, 2);
    lemma_padded_digits(m, 2);
    lemma_padded_digits(s, 2);
    lemma_padded_digits(ms, 3);
    reveal_strlit(":");
    reveal_strlit(".");
    let a = zero_padded(h, 2);
    let b = zero_padded(m, 2);
    let c = zero_padded(s, 2);
    let d = zero_padded(ms, 3);
    let text = countdown_text(t);
    assert(text =~= a + ":"@ + b + ":"@ + c + "."@ + d);
    assert(text[0] == a[0] && text[1] == a[1]);
    assert(text[3] == b[0] && text[4] == b[1]);
    assert(text[6] == c[0] && text[7] == c[1]);
    assert(text[9] == d[0] && text[10] == d[1] && text[11] == d[2]);
    assert(text.subrange(0, 2) =~= a);
    assert(text.subrange(3, 5) =~= b);
    assert(text.subrange(6, 8) =~= c);
    assert(text.subrange(9, 12) =~= d);
    assert(ms == t.nanos / 1_000_000) by {
        assert((t.secs * 1000 + t.nanos / 1_000_000) % 1000 == t.nanos / 1_000_000) by {
            vstd::arithmetic::div_mod::lemma_mod_multiples_vanish(
                t.secs as int,
                t.nanos as int / 1_000_000,
                1000,
            );
            assert(t.secs * 1000 == 1000 * t.secs) by (nonlinear_arith);
        }
    }
}

/// `a` comes before `b` on the timeline (a leap second after the second it
/// extends, before the next one).
pub open spec fn stamp_before(a: NaiveStamp, b: NaiveStamp) -> bool {
    a.secs < b.secs || (a.secs == b.secs && a.nanos < b.nanos)
}

/// Outside leap seconds, the start has passed exactly when it comes before
/// `now`.
pub proof fn lemma_passed_means_before(start: NaiveStamp, now: NaiveStamp)
    requires
        stamp_in_range(start),
        stamp_in_range(now),
        start.nanos < NANOS_PER_SEC,
        now.nanos < NANOS_PER_SEC,
    ensures
        span_is_negative(span_between(start, now)) <==> stamp_before(start, now),
{
}

/// The start time after the check against `now`: when it has passed and the
/// user agrees, the same time of the next day (nothing when that day is beyond
/// what `chrono` holds); otherwise unchanged.
pub open spec fn settled_start(start: NaiveStamp, now: NaiveStamp, answer: Seq<char>) -> Option<
    NaiveStamp,
> {
    if span_is_negative(span_between(start, now)) && agrees(answer) {
        day_after(start)
    } else {
        Some(start)
    }
}

/// The start time after the check against `now` and the user's `answer`
/// (asked only when the start has passed).
pub fn adjusted_start(start: &NaiveStamp, now: &NaiveStamp, answer: &str) -> (r: Option<NaiveStamp>)
    requires
        stamp_in_range(*start),
        stamp_in_range(*now),
    ensures
        r == settled_start(*start, *now, answer@),
{
    if start_has_passed(start, now) && answer_agrees(answer) {
        next_day(start)
    } else {
        Some(*start)
    }
}

/// The adjusted start is the start itself or exactly one day later.
pub proof fn lemma_adjusted_start_is_start_or_next_day(
    start: NaiveStamp,
    now: NaiveStamp,
    answer: Seq<char>,
)
    requires
        stamp_in_range(start),
        stamp_in_range(now),
    ensures
        settled_start(start, now, answer) matches Some(s) ==> s == start || (s.secs == start.secs
            + SECS_PER_DAY && day_after(start) == Some(s)),
{
}

/// Whether the start time is already behind `now` (the user is then offered
/// to move it to the next day).
pub fn start_has_passed(start: &NaiveStamp, now: &NaiveStamp) -> (r: bool)
    requires
        stamp_in_range(*start),
        stamp_in_range(*now),
    ensures
        r == span_is_negative(span_between(*start, *now)),
{
    duration_since(start, now).secs < 0
}

/// `s` one day later, as `chrono` adds a day: a time inside a leap second
/// lands inside the second before it on the next day; nothing when that day is
/// beyond what `chrono` holds.
pub open spec fn day_after(s: NaiveStamp) -> Option<NaiveStamp> {
    if s.secs + SECS_PER_DAY > MAX_STAMP_SECS {
        None
    } else {
        Some(
            NaiveStamp {
                secs: (s.secs + SECS_PER_DAY) as i64,
                nanos: if s.nanos >= NANOS_PER_SEC {
                    (s.nanos - NANOS_PER_SEC) as u32
                } else {
                    s.nanos
                },
            },
        )
    }
}

/// The start time moved to the same time of the next day; `None` when that
/// date is beyond the range `chrono` can hold.
pub fn next_day(s: &NaiveStamp) -> (r: Option<NaiveStamp>)
    requires
        stamp_in_range(*s),
    ensures
        r == day_after(*s),
        r matches Some(t) ==> stamp_in_range(t),
{
    if s.secs > MAX_STAMP_SECS - SECS_PER_DAY {
        None
    } else {
        let nanos = if s.nanos >= NANOS_PER_SEC {
            s.nanos - NANOS_PER_SEC
        } else {
            s.nanos
        };
        Some(NaiveStamp { secs: s.secs + SECS_PER_DAY, nanos })
    }
}

/// What `chrono::NaiveDateTime::parse_from_str` reads from `text` laid out as
/// `layout`, as (whole seconds since 1970-01-01 00:00:00, nanoseconds past
/// them).
pub uninterp spec fn parsed_date_time(text: Seq<char>, layout: Seq<char>) -> Option<(i64, u32)>;

/// Calls `chrono::NaiveDateTime::parse_from_str(text, layout)` and reads the
/// result back through `and_utc().timestamp()` and
/// `and_utc().timestamp_subsec_nanos()`. The contract names the result and
/// states only what chrono documents of every date-time: its date lies
/// between January 1, 262144 BCE and December 31, 262142 CE, and the
/// nanoseconds stay below two seconds (the second one only in a leap second).
#[verifier::external_body]
fn parse_date_time(text: &str, layout: &str) -> (r: Option<(i64, u32)>)
    ensures
        r == parsed_date_time(text@, layout@),
        r matches Some(p) ==> MIN_STAMP_SECS <= p.0 <= MAX_STAMP_SECS && p.1 < 2
            * NANOS_PER_SEC,
{
    match chrono::NaiveDateTime::parse_from_str(text, layout) {
        Ok(dt) => Some((dt.and_utc().timestamp(), dt.and_utc().timestamp_subsec_nanos())),
        Err(_) => None,
    }
}

/// The text that is read as the start time: today's date, a space, and the
/// time the user typed.
pub open spec fn start_text(today: Seq<char>, time: Seq<char>) -> Seq<char> {
    today + " "@ + time
}

/// The text read as the start time is today's date, one space, then the
/// typed time, each unchanged; and it is read with the layout
/// `%Y-%m-%d %H:%M:%S%.f`, so the date comes from `today` and the time of day
/// from `time`.
pub proof fn lemma_start_text_is_today_then_time(today: Seq<char>, time: Seq<char>)
    ensures
        start_text(today, time).len() == today.len() + 1 + time.len(),
        start_text(today, time).subrange(0, today.len() as int) == today,
        start_text(today, time)[today.len() as int] == ' ',
        start_text(today, time).subrange(today.len() + 1int, start_text(today, time).len() as int)
            == time,
        TASK_TIME_FORMAT@ == "%Y-%m-%d %H:%M:%S%.f"@,
{
    reveal_strlit(" ");
    let t = start_text(today, time);
    assert(t.subrange(0, today.len() as int) =~= today);
    assert(t.subrange(today.len() + 1int, t.len() as int) =~= time);
}

/// The stamp of a successful read.
pub open spec fn stamp_of(p: Option<(i64, u32)>) -> Option<NaiveStamp> {
    match p {
        Some((secs, nanos)) => Some(NaiveStamp { secs, nanos }),
        None => None,
    }
}

/// Moving the start to the next day puts it one day later, as `chrono`
/// measures spans: 86400 seconds, or 86399 when it was inside a leap second
/// (that second is not repeated the next day).
pub proof fn lemma_next_day_is_one_day_later(s: NaiveStamp)
    requires
        stamp_in_range(s),
        day_after(s) is Some,
    ensures
        span_between(day_after(s)->0, s) == (TimeSpan {
            secs: if s.nanos >= NANOS_PER_SEC {
                86_399
            } else {
                86_400
            },
            nanos: 0,
        }),
{
    let t = day_after(s)->0;
    let x = s.secs - MIN_STAMP_SECS;
    vstd::arithmetic::div_mod::lemma_mod_multiples_vanish(1, x, SECS_PER_DAY as int);
    assert(t.secs - MIN_STAMP_SECS == SECS_PER_DAY * 1 + x);
    assert(second_of_day(t) == second_of_day(s));
}

/// The start time from what the date-time reader gave back: nothing when it
/// could not read the text or gave a date-time `chrono` cannot hold.
pub fn start_from_reading(reading: Option<(i64, u32)>) -> (r: Option<NaiveStamp>)
    ensures
        match stamp_of(reading) {
            Some(s) => if stamp_in_range(s) {
                r == Some(s)
            } else {
                r is None
            },
            None => r is None,
        },
{
    match reading {
        Some((secs, nanos)) => NaiveStamp::from_parts(secs, nanos),
        None => None,
    }
}

/// The start time: today's date (written `YYYY-MM-DD`) with the time the user
/// typed, read as `TASK_TIME_FORMAT`; `None` when it does not read.
pub fn parse_task_time(today: &str, time: &str) -> (r: Option<NaiveStamp>)
    ensures
        r == stamp_of(parsed_date_time(start_text(today@, time@), TASK_TIME_FORMAT@)),
        r == stamp_of(parsed_date_time(today@ + " "@ + time@, "%Y-%m-%d %H:%M:%S%.f"@)),
        r matches Some(s) ==> stamp_in_range(s),
{
    let mut text = String::from_str(today);
    text.append(" ");
    text.append(time);
    start_from_reading(parse_date_time(text.as_str(), TASK_TIME_FORMAT))
}

/// What `str::to_lowercase` makes of `s`.
pub uninterp spec fn lowercase(s: Seq<char>) -> Seq<char>;

/// Calls `str::to_lowercase`; its result, defined by Unicode's case tables,
/// is named rather than stated.
#[verifier::external_body]
fn to_lowercase(s: &str) -> (r: String)
    ensures
        r@ == lowercase(s@),
{
    s.to_lowercase()
}

/// Whether the answer to "set the time for tomorrow?" agrees: once trimmed
/// and lowercased it reads `yes` or `y`.
pub open spec fn agrees(answer: Seq<char>) -> bool {
    lowercase(trimmed(answer)) == "yes"@ || lowercase(trimmed(answer)) == "y"@
}

/// Whether a trimmed, lowercased answer agrees: it is `yes` or `y`.
pub fn lowered_answer_agrees(lowered: &str) -> (r: bool)
    ensures
        r == (lowered@ == "yes"@ || lowered@ == "y"@),
{
    same_text(lowered, "yes") || same_text(lowered, "y")
}

/// Only `yes` and `y` (after trimming and lowercasing) agree: in particular
/// `n` and `no` never move the start time.
pub proof fn lemma_only_yes_agrees(answer: Seq<char>)
    ensures
        agrees(answer) <==> (lowercase(trimmed(answer)) == "yes"@ || lowercase(trimmed(answer))
            == "y"@),
        lowercase(trimmed(answer)) == "n"@ ==> !agrees(answer),
        lowercase(trimmed(answer)) == "no"@ ==> !agrees(answer),
        lowercase(trimmed(answer)).len() == 0 ==> !agrees(answer),
{
    reveal_strlit("yes");
    reveal_strlit("y");
    reveal_strlit("n");
    reveal_strlit("no");
    let l = lowercase(trimmed(answer));
    if l == "n"@ {
        assert("n"@[0] != "y"@[0]);
        assert("n"@.len() != "yes"@.len());
    }
    if l == "no"@ {
        assert("no"@.len() != "yes"@.len());
        assert("no"@.len() != "y"@.len());
    }
}

/// Whether the user's answer agrees to move the start time to tomorrow.
pub fn answer_agrees(answer: &str) -> (r: bool)
    ensures
        r == agrees(answer@),
        r == (lowercase(trimmed(answer@)) == "yes"@ || lowercase(trimmed(answer@)) == "y"@),
{
    let lower = to_lowercase(trim(answer));
    lowered_answer_agrees(lower.as_str())
}

} // verus!
