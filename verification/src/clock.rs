//! Calendar time and the exact wire format of the request timestamp.
//!
//! The SendSafely server rejects requests whose `ss-request-timestamp`
//! header deviates from its expected textual shape, so the formatter here
//! carries an exact character-level contract: month abbreviation, zero
//! padded day, four digit year, unpadded twelve hour clock, and an AM/PM
//! marker, e.g. `Jan 05, 2024 1:45:09 PM`.

use vstd::prelude::*;
use crate::errors::SsError;

verus! {

/// A calendar instant in UTC, the only clock value the library handles.
#[derive(Clone, Copy, PartialEq, Eq, Structural, Debug)]
pub struct UtcTime {
    pub year: u16,
    pub month: u8,
    pub day: u8,
    pub hour: u8,
    pub minute: u8,
    pub second: u8,
}

impl UtcTime {
    /// Field ranges of a representable calendar instant.
    pub open spec fn wf(self) -> bool {
        &&& 1 <= self.year <= 9999
        &&& 1 <= self.month <= 12
        &&& 1 <= self.day <= 31
        &&& self.hour < 24
        &&& self.minute < 60
        &&& self.second < 60
    }
}

/// The decimal digit character for `d`.
pub open spec fn digit_char(d: int) -> char {
    if d == 0 { '0' }
    else if d == 1 { '1' }
    else if d == 2 { '2' }
    else if d == 3 { '3' }
    else if d == 4 { '4' }
    else if d == 5 { '5' }
    else if d == 6 { '6' }
    else if d == 7 { '7' }
    else if d == 8 { '8' }
    else { '9' }
}

/// `n` rendered as exactly two digits, zero padded.
pub open spec fn two_digits(n: int) -> Seq<char> {
    seq![digit_char(n / 10), digit_char(n % 10)]
}

/// `n` rendered as exactly four digits, zero padded.
pub open spec fn four_digits(n: int) -> Seq<char> {
    seq![
        digit_char(n / 1000 % 10),
        digit_char(n / 100 % 10),
        digit_char(n / 10 % 10),
        digit_char(n % 10),
    ]
}

/// Three letter English month abbreviation, `1` being January.
pub open spec fn month_abbrev(m: int) -> Seq<char> {
    if m == 1 { "Jan"@ }
    else if m == 2 { "Feb"@ }
    else if m == 3 { "Mar"@ }
    else if m == 4 { "Apr"@ }
    else if m == 5 { "May"@ }
    else if m == 6 { "Jun"@ }
    else if m == 7 { "Jul"@ }
    else if m == 8 { "Aug"@ }
    else if m == 9 { "Sep"@ }
    else if m == 10 { "Oct"@ }
    else if m == 11 { "Nov"@ }
    else { "Dec"@ }
}

/// The hour of a twelve hour clock for the 24-hour value `h`.
pub open spec fn hour12(h: int) -> int {
    if h == 0 { 12 } else if h > 12 { h - 12 } else { h }
}

/// The twelve hour value rendered without a leading zero.
pub open spec fn hour_digits(h: int) -> Seq<char> {
    if hour12(h) >= 10 { two_digits(hour12(h)) } else { seq![digit_char(hour12(h))] }
}

/// `AM` before noon, `PM` from noon on.
pub open spec fn period_str(h: int) -> Seq<char> {
    if h < 12 { "AM"@ } else { "PM"@ }
}

/// The full timestamp header value for `t`.
pub open spec fn spec_timestamp(t: UtcTime) -> Seq<char> {
    month_abbrev(t.month as int) + " "@ + two_digits(t.day as int) + ", "@
        + four_digits(t.year as int) + " "@ + hour_digits(t.hour as int) + ":"@
        + two_digits(t.minute as int) + ":"@ + two_digits(t.second as int) + " "@
        + period_str(t.hour as int)
}

pub(crate) fn push_digit(s: &mut String, d: u8)
    requires
        d < 10,
    ensures
        final(s)@ == old(s)@ + seq![digit_char(d as int)],
{
    proof {
        reveal_strlit("0");
        reveal_strlit("1");
        reveal_strlit("2");
        reveal_strlit("3");
        reveal_strlit("4");
        reveal_strlit("5");
        reveal_strlit("6");
        reveal_strlit("7");
        reveal_strlit("8");
        reveal_strlit("9");
    }
    if d == 0 {
        s.append("0");
        proof { assert(old(s)@ + "0"@ =~= old(s)@ + seq![digit_char(d as int)]); }
    } else if d == 1 {
        s.append("1");
        proof { assert(old(s)@ + "1"@ =~= old(s)@ + seq![digit_char(d as int)]); }
    } else if d == 2 {
        s.append("2");
        proof { assert(old(s)@ + "2"@ =~= old(s)@ + seq![digit_char(d as int)]); }
    } else if d == 3 {
        s.append("3");
        proof { assert(old(s)@ + "3"@ =~= old(s)@ + seq![digit_char(d as int)]); }
    } else if d == 4 {
        s.append("4");
        proof { assert(old(s)@ + "4"@ =~= old(s)@ + seq![digit_char(d as int)]); }
    } else if d == 5 {
        s.append("5");
        proof { assert(old(s)@ + "5"@ =~= old(s)@ + seq![digit_char(d as int)]); }
    } else if d == 6 {
        s.append("6");
        proof { assert(old(s)@ + "6"@ =~= old(s)@ + seq![digit_char(d as int)]); }
    } else if d == 7 {
        s.append("7");
        proof { assert(old(s)@ + "7"@ =~= old(s)@ + seq![digit_char(d as int)]); }
    } else if d == 8 {
        s.append("8");
        proof { assert(old(s)@ + "8"@ =~= old(s)@ + seq![digit_char(d as int)]); }
    } else {
        s.append("9");
        proof { assert(old(s)@ + "9"@ =~= old(s)@ + seq![digit_char(d as int)]); }
    }
}

fn push_two_digits(s: &mut String, n: u8)
    requires
        n < 100,
    ensures
        final(s)@ == old(s)@ + two_digits(n as int),
{
    push_digit(s, n / 10);
    push_digit(s, n % 10);
    proof {
        assert(final(s)@ =~= old(s)@ + two_digits(n as int));
    }
}

fn push_four_digits(s: &mut String, n: u16)
    requires
        n < 10000,
    ensures
        final(s)@ == old(s)@ + four_digits(n as int),
{
    push_digit(s, (n / 1000 % 10) as u8);
    push_digit(s, (n / 100 % 10) as u8);
    push_digit(s, (n / 10 % 10) as u8);
    push_digit(s, (n % 10) as u8);
    proof {
        assert(final(s)@ =~= old(s)@ + four_digits(n as int));
    }
}

fn push_month(s: &mut String, m: u8)
    requires
        1 <= m <= 12,
    ensures
        final(s)@ == old(s)@ + month_abbrev(m as int),
{
    if m == 1 { s.append("Jan"); }
    else if m == 2 { s.append("Feb"); }
    else if m == 3 { s.append("Mar"); }
    else if m == 4 { s.append("Apr"); }
    else if m == 5 { s.append("May"); }
    else if m == 6 { s.append("Jun"); }
    else if m == 7 { s.append("Jul"); }
    else if m == 8 { s.append("Aug"); }
    else if m == 9 { s.append("Sep"); }
    else if m == 10 { s.append("Oct"); }
    else if m == 11 { s.append("Nov"); }
    else { s.append("Dec"); }
}

/// The `ss-request-timestamp` header value for `t`, in the exact textual
/// shape the server expects.
pub fn format_timestamp(t: &UtcTime) -> (r: String)
    requires
        t.wf(),
    ensures
        r@ == spec_timestamp(*t),
{
    let mut s = String::new();
    push_month(&mut s, t.month);
    s.append(" ");
    push_two_digits(&mut s, t.day);
    s.append(", ");
    push_four_digits(&mut s, t.year);
    s.append(" ");
    let h12: u8 = if t.hour == 0 { 12 } else if t.hour > 12 { t.hour - 12 } else { t.hour };
    assert(h12 as int == hour12(t.hour as int));
    if h12 >= 10 {
        push_two_digits(&mut s, h12);
    } else {
        push_digit(&mut s, h12);
    }
    s.append(":");
    push_two_digits(&mut s, t.minute);
    s.append(":");
    push_two_digits(&mut s, t.second);
    s.append(" ");
    if t.hour < 12 { s.append("AM"); } else { s.append("PM"); }
    proof {
        assert(s@ =~= spec_timestamp(*t));
    }
    s
}

/// Relies on `std::time::SystemTime::now` for the instant and on time's
/// `OffsetDateTime::from_unix_timestamp` — a `Result`, so a clock outside
/// the representable years becomes `None` rather than a panic — and its
/// component accessors: `day` is documented to lie in `1..=31`, `hour` in
/// `0..24`, `minute` and `second` in `0..60`, and `u8::from(Month)` in
/// `1..=12`. `None` also stands for a clock before the Unix epoch.
#[verifier::external_body]
fn now_utc_parts() -> (r: Option<(i32, u8, u8, u8, u8, u8)>)
    ensures
        r matches Some(p) ==> 1 <= p.1 <= 12 && 1 <= p.2 <= 31 && p.3 < 24 && p.4 < 60 && p.5
            < 60,
{
    let d = std::time::SystemTime::now().duration_since(std::time::UNIX_EPOCH).ok()?;
    let t = time::OffsetDateTime::from_unix_timestamp(d.as_secs() as i64).ok()?;
    Some((t.year(), u8::from(t.month()), t.day(), t.hour(), t.minute(), t.second()))
}

/// The calendar instant for raw clock components: `Ok` exactly on the
/// representable ranges, `Clock` on everything else.
pub fn clock_time(year: i32, month: u8, day: u8, hour: u8, minute: u8, second: u8) -> (r: Result<
    UtcTime,
    SsError,
>)
    ensures
        r == (if 1 <= year <= 9999 && 1 <= month <= 12 && 1 <= day <= 31 && hour < 24 && minute
            < 60 && second < 60 {
            Ok::<UtcTime, SsError>(
                UtcTime { year: year as u16, month, day, hour, minute, second },
            )
        } else {
            Err::<UtcTime, SsError>(SsError::Clock)
        }),
{
    if 1 <= year && year <= 9999 && 1 <= month && month <= 12 && 1 <= day && day <= 31 && hour
        < 24 && minute < 60 && second < 60 {
        Ok(UtcTime { year: year as u16, month, day, hour, minute, second })
    } else {
        Err(SsError::Clock)
    }
}

/// Reads the system clock; fails with `Clock` when it cannot be read or
/// falls outside the representable range. What came back goes through
/// `clock_time`, which fixes the result for every value of the parts.
pub fn now_utc_time() -> (r: Result<UtcTime, SsError>)
    ensures
        r matches Ok(t) ==> t.wf(),
        r matches Err(e) ==> e == SsError::Clock,
{
    match now_utc_parts() {
        Some((y, mo, d, h, mi, s)) => clock_time(y, mo, d, h, mi, s),
        None => Err(SsError::Clock),
    }
}

} // verus!
