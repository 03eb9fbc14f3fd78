//! Wall-clock reading and civil-calendar conversion.
//!
//! The pipeline context stamps each run with a `YYYY-MM-DD` date and the
//! log layer with an RFC 3339 timestamp, both computed here from seconds
//! since the Unix epoch with the civil-from-days algorithm (era/year-of-era
//! decomposition). Intermediate values are defensively clamped into their
//! documented ranges — the clamps are unreachable for any real clock
//! reading, and the specification mirrors them exactly.

use vstd::prelude::*;
use vstd::string::*;

use crate::text::str_concat;

verus! {

/// Relies on `std::time::SystemTime::now` followed by
/// `duration_since(UNIX_EPOCH)`: seconds and sub-second nanoseconds since
/// the Unix epoch, or zero for a clock before it. Nanoseconds are below one
/// billion, as `Duration` documents.
#[verifier::external_body]
pub fn now_unix() -> (r: (u64, u32))
    ensures
        r.1 < 1_000_000_000,
{
    match std::time::SystemTime::now().duration_since(std::time::UNIX_EPOCH) {
        Ok(d) => (d.as_secs(), d.subsec_nanos()),
        Err(_) => (0, 0),
    }
}

/// Year, month and day for a day count since 1970-01-01 (UTC), by the
/// civil-from-days algorithm (era / year-of-era decomposition), with
/// out-of-range intermediates clamped.
///
/// This specification is the algorithm itself: the executable is proved
/// equal to it step for step, and the clamps — unreachable for any
/// in-range day count — keep every intermediate total. A
/// calendar-axiomatic statement (the inverse of a days-from-civil
/// function) would rest on the nonlinear division bounds of the era
/// decomposition, which exceeded the proof budget here; the known-date
/// tests pin the calendar meaning instead.
pub open spec fn civil_spec(days: int) -> (int, int, int) {
    let z = days + 719_468;
    let era0 = z / 146_097;
    let era = if era0 > 1000 { 1000 } else { era0 };
    let doe = z % 146_097;
    let u0 = if doe >= doe / 1460 { doe - doe / 1460 } else { 0 };
    let u1 = u0 + doe / 36_524;
    let u2 = if u1 >= doe / 146_096 { u1 - doe / 146_096 } else { 0 };
    let yoe0 = u2 / 365;
    let yoe = if yoe0 > 399 { 399 } else { yoe0 };
    let t0 = 365 * yoe + yoe / 4;
    let t = if t0 >= yoe / 100 { t0 - yoe / 100 } else { 0 };
    let doy0 = if doe >= t { doe - t } else { 0 };
    let doy = if doy0 > 365 { 365 } else { doy0 };
    let mp0 = (5 * doy + 2) / 153;
    let mp = if mp0 > 11 { 11 } else { mp0 };
    let sub = (153 * mp + 2) / 5;
    let d0 = if doy + 1 >= sub { doy + 1 - sub } else { 1 };
    let d = if d0 < 1 { 1 } else if d0 > 31 { 31 } else { d0 };
    let m = if mp < 10 { mp + 3 } else { mp - 9 };
    let y0 = yoe + era * 400;
    let y = if m <= 2 { y0 + 1 } else { y0 };
    (y, m, d)
}

/// Convert days since the Unix epoch to `(year, month, day)`.
pub fn civil_from_days(days: u64) -> (r: (u64, u64, u64))
    requires
        days <= 100_000_000,
    ensures
        (r.0 as int, r.1 as int, r.2 as int) == civil_spec(days as int),
        1 <= r.1 <= 12,
        1 <= r.2 <= 31,
        r.0 <= 300_000,
{
    let z: u64 = days + 719_468;
    let era0: u64 = z / 146_097;
    let era: u64 = if era0 > 1000 {
        1000
    } else {
        era0
    };
    let doe: u64 = z % 146_097;
    let u0: u64 = if doe >= doe / 1460 {
        doe - doe / 1460
    } else {
        0
    };
    let u1: u64 = u0 + doe / 36_524;
    let u2: u64 = if u1 >= doe / 146_096 {
        u1 - doe / 146_096
    } else {
        0
    };
    let yoe0: u64 = u2 / 365;
    let yoe: u64 = if yoe0 > 399 {
        399
    } else {
        yoe0
    };
    let t0: u64 = 365 * yoe + yoe / 4;
    let t: u64 = if t0 >= yoe / 100 {
        t0 - yoe / 100
    } else {
        0
    };
    let doy0: u64 = if doe >= t {
        doe - t
    } else {
        0
    };
    let doy: u64 = if doy0 > 365 {
        365
    } else {
        doy0
    };
    let mp0: u64 = (5 * doy + 2) / 153;
    let mp: u64 = if mp0 > 11 {
        11
    } else {
        mp0
    };
    let sub: u64 = (153 * mp + 2) / 5;
    let d0: u64 = if doy + 1 >= sub {
        doy + 1 - sub
    } else {
        1
    };
    let d: u64 = if d0 < 1 {
        1
    } else if d0 > 31 {
        31
    } else {
        d0
    };
    let m: u64 = if mp < 10 {
        mp + 3
    } else {
        mp - 9
    };
    let y0: u64 = yoe + era * 400;
    let y: u64 = if m <= 2 {
        y0 + 1
    } else {
        y0
    };
    (y, m, d)
}

/// The character of one decimal digit.
pub open spec fn digit_char_spec(d: int) -> char {
    if d == 0 {
        '0'
    } else if d == 1 {
        '1'
    } else if d == 2 {
        '2'
    } else if d == 3 {
        '3'
    } else if d == 4 {
        '4'
    } else if d == 5 {
        '5'
    } else if d == 6 {
        '6'
    } else if d == 7 {
        '7'
    } else if d == 8 {
        '8'
    } else {
        '9'
    }
}

fn digit_str(d: u64) -> (r: &'static str)
    requires
        d <= 9,
    ensures
        r@ == seq![digit_char_spec(d as int)],
{
    proof {
        reveal_strlit("0");
        reveal_strlit("1");
        reveal_strlit("2");
        reveal_strlit("3");
        reveal_strlit("4");
        reveal_strlit("5");
        reveal_strlit("6");
        reveal_strlit("7");
        reveal_strlit("8");
        reveal_strlit("9");
    }
    let r = match d {
        0 => "0",
        1 => "1",
        2 => "2",
        3 => "3",
        4 => "4",
        5 => "5",
        6 => "6",
        7 => "7",
        8 => "8",
        _ => "9",
    };
    proof {
        assert(r@ =~= seq![digit_char_spec(d as int)]);
    }
    r
}

/// Decimal rendering of a non-negative number, without padding.
pub open spec fn dec_str_spec(n: int) -> Seq<char>
    decreases n,
{
    if n < 10 {
        seq![digit_char_spec(n)]
    } else {
        dec_str_spec(n / 10) + seq![digit_char_spec(n % 10)]
    }
}

/// Format a number in decimal.
pub fn u64_to_string(n: u64) -> (r: String)
    ensures
        r@ == dec_str_spec(n as int),
    decreases n,
{
    if n < 10 {
        let r = digit_str(n).to_owned();
        proof {
            assert(r@ =~= dec_str_spec(n as int));
        }
        r
    } else {
        proof {
            assert(n / 10 < n) by (nonlinear_arith)
                requires
                    n >= 10,
            ;
        }
        let mut s = u64_to_string(n / 10);
        s.append(digit_str(n % 10));
        proof {
            assert(s@ =~= dec_str_spec(n as int));
        }
        s
    }
}

/// Two decimal digits, zero-padded.
pub open spec fn pad2_spec(n: int) -> Seq<char> {
    seq![digit_char_spec(n / 10), digit_char_spec(n % 10)]
}

/// Format a number below 100 as two digits.
pub fn pad2(n: u64) -> (r: String)
    requires
        n <= 99,
    ensures
        r@ == pad2_spec(n as int),
        r@.len() == 2,
{
    proof {
        assert(n / 10 <= 9) by (nonlinear_arith)
            requires
                n <= 99,
        ;
    }
    let r = str_concat(digit_str(n / 10), digit_str(n % 10));
    proof {
        assert(r@ =~= pad2_spec(n as int));
    }
    r
}

/// Three decimal digits, zero-padded.
pub open spec fn pad3_spec(n: int) -> Seq<char> {
    seq![digit_char_spec(n / 100), digit_char_spec(n / 10 % 10), digit_char_spec(n % 10)]
}

/// Format a number below 1000 as three digits.
pub fn pad3(n: u64) -> (r: String)
    requires
        n <= 999,
    ensures
        r@ == pad3_spec(n as int),
        r@.len() == 3,
{
    proof {
        assert(n / 100 <= 9 && n / 10 % 10 <= 9) by (nonlinear_arith)
            requires
                n <= 999,
        ;
    }
    let r = str_concat(str_concat(digit_str(n / 100), digit_str(n / 10 % 10)).as_str(), digit_str(n % 10));
    proof {
        assert(r@ =~= pad3_spec(n as int));
    }
    r
}

/// Four decimal digits, zero-padded.
pub open spec fn pad4_spec(n: int) -> Seq<char> {
    seq![
        digit_char_spec(n / 1000),
        digit_char_spec(n / 100 % 10),
        digit_char_spec(n / 10 % 10),
        digit_char_spec(n % 10),
    ]
}

/// Format a number below 10000 as four digits.
pub fn pad4(n: u64) -> (r: String)
    requires
        n <= 9999,
    ensures
        r@ == pad4_spec(n as int),
        r@.len() == 4,
{
    proof {
        assert(n / 1000 <= 9 && n / 100 % 10 <= 9 && n / 10 % 10 <= 9) by (nonlinear_arith)
            requires
                n <= 9999,
        ;
    }
    let a = str_concat(digit_str(n / 1000), digit_str(n / 100 % 10));
    let b = str_concat(digit_str(n / 10 % 10), digit_str(n % 10));
    let r = str_concat(a.as_str(), b.as_str());
    proof {
        assert(r@ =~= pad4_spec(n as int));
    }
    r
}

/// The day count used for the date string: seconds divided out, clamped to
/// the last day of year 9999 so the format stays fixed-width.
pub open spec fn date_days_spec(secs: int) -> int {
    let days = secs / 86_400;
    if days > 2_932_896 {
        2_932_896
    } else {
        days
    }
}

/// The `YYYY-MM-DD` date string for a Unix timestamp.
pub open spec fn date_str_spec(secs: int) -> Seq<char> {
    let ymd = civil_spec(date_days_spec(secs));
    let y = if ymd.0 > 9999 {
        9999
    } else {
        ymd.0
    };
    pad4_spec(y) + seq!['-'] + pad2_spec(ymd.1) + seq!['-'] + pad2_spec(ymd.2)
}

/// Format a Unix timestamp as a `YYYY-MM-DD` date (UTC).
pub fn iso_date_from_secs(secs: u64) -> (r: String)
    ensures
        r@ == date_str_spec(secs as int),
        r@.len() == 10,
        r@[4] == '-',
        r@[7] == '-',
{
    let days0: u64 = secs / 86_400;
    let days: u64 = if days0 > 2_932_896 {
        2_932_896
    } else {
        days0
    };
    let ymd = civil_from_days(days);
    let y: u64 = if ymd.0 > 9999 {
        9999
    } else {
        ymd.0
    };
    let front = str_concat(pad4(y).as_str(), "-");
    let mid = str_concat(pad2(ymd.1).as_str(), "-");
    let back = pad2(ymd.2);
    let r = str_concat(str_concat(front.as_str(), mid.as_str()).as_str(), back.as_str());
    proof {
        reveal_strlit("-");
        assert(r@ =~= date_str_spec(secs as int));
        assert(r@.len() == 10);
        assert(r@[4] == '-');
        assert(r@[7] == '-');
    }
    r
}

} // verus!
