//! Proleptic Gregorian calendar arithmetic: the civil date of a day count
//! since 1970-01-01, and the compact `YYYYMMDD` form of a date.
use vstd::prelude::*;
use crate::text::{concat2, decimal, decimal_padded, zero_pad};

verus! {

/// Whether `y` is a leap year.
pub open spec fn is_leap(y: int) -> bool {
    (y % 4 == 0 && y % 100 != 0) || y % 400 == 0
}

/// Number of days of month `m` of year `y`.
pub open spec fn days_in_month(y: int, m: int) -> int {
    if m == 2 {
        if is_leap(y) { 29 } else { 28 }
    } else if m == 4 || m == 6 || m == 9 || m == 11 {
        30
    } else {
        31
    }
}

/// Whether `(y, m, d)` names a day of the calendar.
pub open spec fn valid_date(y: int, m: int, d: int) -> bool {
    1 <= m <= 12 && 1 <= d <= days_in_month(y, m)
}

/// Leap years counted up to `y`: those in `1..=y` for positive `y`, and
/// extended below by the same formula.
pub open spec fn leaps_through(y: int) -> int {
    y / 4 - y / 100 + y / 400
}

/// Days from 1970-01-01 to January 1 of year `y` (negative before 1970).
pub open spec fn days_before_year(y: int) -> int {
    365 * (y - 1970) + leaps_through(y - 1) - leaps_through(1969)
}

/// Days of year `y` before the first of month `m`.
pub open spec fn days_before_month(y: int, m: int) -> int {
    let common: int = if m <= 1 {
        0
    } else if m == 2 {
        31
    } else if m == 3 {
        59
    } else if m == 4 {
        90
    } else if m == 5 {
        120
    } else if m == 6 {
        151
    } else if m == 7 {
        181
    } else if m == 8 {
        212
    } else if m == 9 {
        243
    } else if m == 10 {
        273
    } else if m == 11 {
        304
    } else {
        334
    };
    if m > 2 && is_leap(y) { common + 1 } else { common }
}

/// Days from 1970-01-01 to the date `(y, m, d)`.
pub open spec fn days_from_civil(y: int, m: int, d: int) -> int {
    days_before_year(y) + days_before_month(y, m) + d - 1
}

/// Days of a 400-year cycle before year `y` of it, counting years from
/// March 1 (so that a leap day closes its year).
spec fn cycle_days(y: int) -> int {
    365 * y + leaps_through(y)
}

/// Within a 400-year cycle of 146097 days, the year of day `doe`.
#[verifier::spinoff_prover]
#[verifier::rlimit(40)]
proof fn lemma_year_of_era(doe: int)
    requires
        0 <= doe < 146097,
    ensures
        ({
            let yoe = (doe - doe / 1460 + doe / 36524 - doe / 146096) / 365;
            &&& 0 <= yoe < 400
            &&& cycle_days(yoe) <= doe < cycle_days(yoe + 1)
        }),
{
}

/// Start, within a March-based year, of its month `mp` (0 for March).
spec fn march_month_start(mp: int) -> int {
    (153 * mp + 2) / 5
}

/// Length of month `mp` of a March-based year (0 for March, 11 for the
/// February that closes it).
spec fn march_month_len(mp: int, leap: bool) -> int {
    if mp == 11 {
        if leap { 29 } else { 28 }
    } else if mp == 1 || mp == 3 || mp == 6 || mp == 8 {
        30
    } else {
        31
    }
}

/// Within a March-based year, the month of day `doy`.
proof fn lemma_month_of_year(doy: int, leap: bool)
    requires
        0 <= doy < (if leap { 366int } else { 365int }),
    ensures
        ({
            let mp = (5 * doy + 2) / 153;
            &&& 0 <= mp <= 11
            &&& march_month_start(mp) <= doy
            &&& doy - march_month_start(mp) < march_month_len(mp, leap)
        }),
{
}

/// Between consecutive years the leap count grows by one exactly at a leap
/// year.
proof fn lemma_leaps_step(y: int)
    ensures
        leaps_through(y) - leaps_through(y - 1) == (if is_leap(y) { 1int } else { 0int }),
{
    assert(y / 4 - (y - 1) / 4 == (if y % 4 == 0 { 1int } else { 0int }));
    assert(y / 100 - (y - 1) / 100 == (if y % 100 == 0 { 1int } else { 0int }));
    assert(y / 400 - (y - 1) / 400 == (if y % 400 == 0 { 1int } else { 0int }));
    if y % 400 == 0 {
        assert(y % 100 == 0 && y % 4 == 0);
    } else if y % 100 == 0 {
        assert(y % 4 == 0);
    }
}

/// Each 400 years hold 97 leap years.
proof fn lemma_leaps_cycle(y: int, k: int)
    ensures
        leaps_through(y + 400 * k) == leaps_through(y) + 97 * k,
{
    vstd::arithmetic::div_mod::lemma_hoist_over_denominator(y, 100 * k, 4);
    vstd::arithmetic::div_mod::lemma_hoist_over_denominator(y, 4 * k, 100);
    vstd::arithmetic::div_mod::lemma_hoist_over_denominator(y, k, 400);
}

/// The days before each month, counted from March and from January.
proof fn lemma_month_table(y: int, mp: int)
    requires
        0 <= mp <= 11,
    ensures
        mp < 10 ==> days_before_month(y, mp + 3) == 59 + march_month_start(mp) + (if is_leap(y) { 1int } else { 0int }),
        mp < 10 ==> forall|leap: bool| days_in_month(y, mp + 3) == #[trigger] march_month_len(mp, leap),
        mp >= 10 ==> days_before_month(y, mp - 9) == march_month_start(mp) - 306,
        mp >= 10 ==> days_in_month(y, mp - 9) == march_month_len(mp, is_leap(y)),
{
    if mp == 0 {
    } else if mp == 1 {
    } else if mp == 2 {
    } else if mp == 3 {
    } else if mp == 4 {
    } else if mp == 5 {
    } else if mp == 6 {
    } else if mp == 7 {
    } else if mp == 8 {
    } else if mp == 9 {
    } else if mp == 10 {
    } else {
    }
}

/// Leap years recur every 400 years.
proof fn lemma_leap_cycle(y: int, k: int)
    ensures
        is_leap(y + 400 * k) == is_leap(y),
{
    vstd::arithmetic::div_mod::lemma_mod_multiples_vanish(100 * k, y, 4);
    vstd::arithmetic::div_mod::lemma_mod_multiples_vanish(4 * k, y, 100);
    vstd::arithmetic::div_mod::lemma_mod_multiples_vanish(k, y, 400);
}

/// The first of March of year `yoe + 400 * era`, counted from 1970-01-01.
proof fn lemma_march_first(yoe: int, era: int)
    requires
        0 <= yoe < 400,
    ensures
        days_before_year(yoe + 400 * era) + 59 + (if is_leap(yoe + 400 * era) { 1int } else { 0int })
            == cycle_days(yoe) + 146097 * era - 719468,
{
    let big_y = yoe + 400 * era;
    lemma_leaps_step(big_y);
    lemma_leaps_cycle(yoe, era);
    assert(leaps_through(1969) == 477);
}

/// The date of day `doy` of the March-based year `big_y`, and its day count.
proof fn lemma_date_in_year(big_y: int, doy: int)
    requires
        0 <= doy < (if is_leap(big_y + 1) { 366int } else { 365int }),
    ensures
        ({
            let mp = (5 * doy + 2) / 153;
            let day = doy - (153 * mp + 2) / 5 + 1;
            let month = if mp < 10 { mp + 3 } else { mp - 9 };
            let year = big_y + (if month <= 2 { 1int } else { 0int });
            &&& 0 <= mp <= 11
            &&& valid_date(year, month, day)
            &&& days_from_civil(year, month, day) == days_before_year(big_y) + 59 + (if is_leap(big_y) {
                1int
            } else {
                0int
            }) + doy
        }),
{
    let leap = is_leap(big_y + 1);
    lemma_month_of_year(doy, leap);
    let mp = (5 * doy + 2) / 153;
    if mp < 10 {
        lemma_month_table(big_y, mp);
    } else {
        lemma_month_table(big_y + 1, mp);
        law_year_length(big_y);
    }
}

/// The date that day `doe` of 400-year cycle `era` falls on, computed as
/// the day count is decomposed: year of the cycle, day of that year, month.
#[verifier::spinoff_prover]
proof fn lemma_civil_of_cycle(era: int, doe: int)
    requires
        0 <= doe < 146097,
    ensures
        ({
            let yoe = (doe - doe / 1460 + doe / 36524 - doe / 146096) / 365;
            let doy = doe - (365 * yoe + yoe / 4 - yoe / 100);
            let mp = (5 * doy + 2) / 153;
            let day = doy - (153 * mp + 2) / 5 + 1;
            let month = if mp < 10 { mp + 3 } else { mp - 9 };
            let year = yoe + 400 * era + (if month <= 2 { 1int } else { 0int });
            &&& 0 <= yoe < 400
            &&& 0 <= doy < 366
            &&& 0 <= mp <= 11
            &&& valid_date(year, month, day)
            &&& days_from_civil(year, month, day) == 146097 * era + doe - 719468
        }),
{
    let yoe = (doe - doe / 1460 + doe / 36524 - doe / 146096) / 365;
    lemma_year_of_era(doe);
    assert(yoe / 400 == 0);
    let doy = doe - cycle_days(yoe);
    let big_y = yoe + 400 * era;
    lemma_leaps_step(yoe + 1);
    lemma_leap_cycle(yoe + 1, era);
    assert(0 <= doy < (if is_leap(big_y + 1) { 366int } else { 365int }));
    lemma_date_in_year(big_y, doy);
    lemma_march_first(yoe, era);
}

/// Consecutive years differ by the length of the first: 366 days for a
/// leap year, 365 otherwise.
pub proof fn law_year_length(y: int)
    ensures
        days_before_year(y + 1) - days_before_year(y) == (if is_leap(y) { 366int } else { 365int }),
{
    lemma_leaps_step(y);
}

/// A valid date lies within its year.
proof fn lemma_date_within_year(y: int, m: int, d: int)
    requires
        valid_date(y, m, d),
    ensures
        days_before_year(y) <= days_from_civil(y, m, d) < days_before_year(y + 1),
{
    law_year_length(y);
}

/// Later years start later.
proof fn lemma_years_increase(y1: int, y2: int)
    requires
        y1 < y2,
    ensures
        days_before_year(y1 + 1) <= days_before_year(y2),
    decreases y2 - y1,
{
    if y2 > y1 + 1 {
        lemma_years_increase(y1, y2 - 1);
        law_year_length(y2 - 1);
    }
}

/// Within a year, each month starts where the previous one ends.
proof fn lemma_month_step(y: int, m: int)
    requires
        1 <= m < 12,
    ensures
        days_before_month(y, m + 1) == days_before_month(y, m) + days_in_month(y, m),
{
}

/// Later months of a year start later.
proof fn lemma_months_increase(y: int, m1: int, m2: int)
    requires
        1 <= m1 < m2 <= 12,
    ensures
        days_before_month(y, m1) + days_in_month(y, m1) <= days_before_month(y, m2),
    decreases m2 - m1,
{
    lemma_month_step(y, m1);
    if m2 > m1 + 1 {
        lemma_months_increase(y, m1 + 1, m2);
        lemma_month_step(y, m1 + 1);
    }
}

/// Distinct dates have distinct day counts: a day count names at most one
/// date.
pub proof fn law_days_name_one_date(y1: int, m1: int, d1: int, y2: int, m2: int, d2: int)
    requires
        valid_date(y1, m1, d1),
        valid_date(y2, m2, d2),
        days_from_civil(y1, m1, d1) == days_from_civil(y2, m2, d2),
    ensures
        y1 == y2 && m1 == m2 && d1 == d2,
{
    lemma_date_within_year(y1, m1, d1);
    lemma_date_within_year(y2, m2, d2);
    if y1 < y2 {
        lemma_years_increase(y1, y2);
    } else if y2 < y1 {
        lemma_years_increase(y2, y1);
    } else if m1 < m2 {
        lemma_months_increase(y1, m1, m2);
    } else if m2 < m1 {
        lemma_months_increase(y1, m2, m1);
    }
}

/// An integer written in decimal with at least `width` characters, zeros
/// filling in after the sign.
pub open spec fn padded_int(v: int, width: nat) -> Seq<char> {
    if v >= 0 {
        zero_pad(decimal(v as nat), width)
    } else {
        seq!['-'] + zero_pad(decimal((-v) as nat), (width - 1) as nat)
    }
}

/// The compact form `YYYYMMDD` of a date.
pub open spec fn compact_date(y: int, m: int, d: int) -> Seq<char> {
    padded_int(y, 4) + zero_pad(decimal(m as nat), 2) + zero_pad(decimal(d as nat), 2)
}

/// `s` is the compact form of the date `days` days after 1970-01-01.
pub open spec fn is_compact_day(s: Seq<char>, days: int) -> bool {
    exists|y: int, m: int, d: int|
        valid_date(y, m, d) && days_from_civil(y, m, d) == days && s == #[trigger] compact_date(y, m, d)
}

/// `v` in decimal, zero-padded to `width` characters after the sign.
pub fn padded_i64(v: i64, width: usize) -> (r: String)
    requires
        width >= 1,
    ensures
        r@ == padded_int(v as int, width as nat),
{
    if v >= 0 {
        decimal_padded(v as u64, width)
    } else {
        let magnitude: u64 = (-(v as i128)) as u64;
        let digits = decimal_padded(magnitude, width - 1);
        proof {
            reveal_strlit("-");
            assert("-"@ =~= seq!['-']);
        }
        concat2("-", digits.as_str())
    }
}

/// The compact form `YYYYMMDD` of the date `days` days after 1970-01-01.
pub fn compact_date_of_days(days: i64) -> (r: String)
    requires
        days <= i64::MAX - 719468,
    ensures
        is_compact_day(r@, days as int),
{
    let (year, month, day) = civil_from_days(days);
    let y = padded_i64(year, 4);
    let m = decimal_padded(month as u64, 2);
    let d = decimal_padded(day as u64, 2);
    let ym = concat2(y.as_str(), m.as_str());
    let r = concat2(ym.as_str(), d.as_str());
    assert(r@ == compact_date(year as int, month as int, day as int));
    r
}

/// The day, counted from 1970-01-01, of the instant `secs` seconds after
/// the Unix epoch, the seconds taken as a signed count (`as i64`).
pub open spec fn utc_day_of(secs: u64) -> int {
    (secs as i64 as int) / 86400
}

/// The compact UTC date of the instant `secs` seconds after the Unix epoch,
/// the seconds taken as a signed count (`as i64`).
pub fn compact_utc_date(secs: u64) -> (r: String)
    ensures
        is_compact_day(r@, utc_day_of(secs)),
{
    let signed: i64 = secs as i64;
    let days: i64 = match signed.checked_div_euclid(86400) {
        Some(d) => d,
        None => 0,
    };
    compact_date_of_days(days)
}

/// Seconds since the Unix epoch on the system clock; 0 when the clock is
/// set before the epoch.
///
/// Trusted: wraps `std::time::SystemTime::now()` and
/// `duration_since(UNIX_EPOCH)`. The value depends on the clock, so nothing
/// is claimed of it.
#[verifier::external_body]
fn unix_now_secs() -> (r: u64) {
    std::time::SystemTime::now().duration_since(std::time::UNIX_EPOCH).map(|d| d.as_secs()).unwrap_or(0)
}

/// Today's UTC date as `YYYYMMDD`.
pub fn today_utc_compact() -> (r: String)
    ensures
        exists|secs: u64| is_compact_day(r@, #[trigger] utc_day_of(secs)),
{
    let secs = unix_now_secs();
    compact_utc_date(secs)
}

/// The civil date `(year, month, day)` of the day `days` days after
/// 1970-01-01 (before it, for negative `days`).
pub fn civil_from_days(days: i64) -> (r: (i64, u32, u32))
    requires
        days <= i64::MAX - 719468,
    ensures
        valid_date(r.0 as int, r.1 as int, r.2 as int),
        days_from_civil(r.0 as int, r.1 as int, r.2 as int) == days,
{
    // Count from 0000-03-01, so that each leap day closes its year and a
    // 400-year cycle holds 146097 days.
    let z: i64 = days + 719468;
    let era: i64 = match z.checked_div_euclid(146097) {
        Some(e) => e,
        None => 0,
    };
    assert(era == z / 146097);
    let doe: i64 = z - era * 146097;
    proof {
        lemma_civil_of_cycle(era as int, doe as int);
    }
    let doe_u: u64 = doe as u64;
    let yoe: u64 = (doe_u - doe_u / 1460 + doe_u / 36524 - doe_u / 146096) / 365;
    let doy: u64 = doe_u - (365 * yoe + yoe / 4 - yoe / 100);
    let mp: u64 = (5 * doy + 2) / 153;
    let day: u64 = doy - (153 * mp + 2) / 5 + 1;
    let month: u64 = if mp < 10 { mp + 3 } else { mp - 9 };
    let year: i64 = yoe as i64 + era * 400 + if month <= 2 { 1 } else { 0 };
    (year, month as u32, day as u32)
}

/// Every character of a decimal rendering is a digit.
proof fn lemma_decimal_digits(n: nat)
    ensures
        forall|i: int| 0 <= i < decimal(n).len() ==> '0' <= #[trigger] decimal(n)[i] <= '9',
    decreases n,
{
    let c = crate::text::digit_char(n % 10);
    assert('0' <= c <= '9');
    if n >= 10 {
        lemma_decimal_digits(n / 10);
        let s = decimal(n / 10);
        assert(decimal(n) == s.push(c));
        assert forall|i: int| 0 <= i < decimal(n).len() implies '0' <= #[trigger] decimal(n)[i] <= '9' by {
            if i < s.len() {
                assert(decimal(n)[i] == s[i]);
            }
        }
    } else {
        assert(decimal(n) == seq![c]);
    }
}

/// The number of decimal digits of numbers below ten thousand.
proof fn lemma_decimal_len(n: nat)
    requires
        n < 10000,
    ensures
        n < 10 ==> decimal(n).len() == 1,
        10 <= n < 100 ==> decimal(n).len() == 2,
        100 <= n < 1000 ==> decimal(n).len() == 3,
        1000 <= n ==> decimal(n).len() == 4,
    decreases n,
{
    if n >= 10 {
        lemma_decimal_len(n / 10);
    }
}

/// The compact form of a date of the years 1000 to 9999 is `YYYYMMDD`:
/// eight decimal digits.
pub proof fn law_compact_date_is_eight_digits(y: int, m: int, d: int)
    requires
        valid_date(y, m, d),
        1000 <= y <= 9999,
    ensures
        compact_date(y, m, d).len() == 8,
        forall|i: int| 0 <= i < 8 ==> '0' <= #[trigger] compact_date(y, m, d)[i] <= '9',
{
    lemma_decimal_len(y as nat);
    lemma_decimal_len(m as nat);
    lemma_decimal_len(d as nat);
    lemma_decimal_digits(y as nat);
    lemma_decimal_digits(m as nat);
    lemma_decimal_digits(d as nat);
    let ys = padded_int(y, 4);
    let ms = zero_pad(decimal(m as nat), 2);
    let ds = zero_pad(decimal(d as nat), 2);
    assert(ys == decimal(y as nat));
    assert(ms.len() == 2 && ds.len() == 2);
    assert forall|i: int| 0 <= i < 2 implies '0' <= #[trigger] ms[i] <= '9' && '0' <= ds[i] <= '9' by {
        if m < 10 {
            assert(ms == Seq::new(1, |j: int| '0') + decimal(m as nat));
        }
        if d < 10 {
            assert(ds == Seq::new(1, |j: int| '0') + decimal(d as nat));
        }
    }
    let c = compact_date(y, m, d);
    assert(c == ys + ms + ds);
    assert forall|i: int| 0 <= i < 8 implies '0' <= #[trigger] c[i] <= '9' by {
        if i < 4 {
            assert(c[i] == ys[i]);
        } else if i < 6 {
            assert(c[i] == ms[i - 4]);
        } else {
            assert(c[i] == ds[i - 6]);
        }
    }
}

} // verus!
