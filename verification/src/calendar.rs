//! Dates of the calendar.

use vstd::prelude::*;
use vstd::string::*;

use crate::text::{
    decimal, decimal_text, digit, digits_value, lemma_precedes_at, lemma_precedes_irreflexive,
    lemma_precedes_transitive, precedes,
};

verus! {

/// A date of the Gregorian calendar.
#[derive(Clone, Copy, Debug, PartialEq, Eq, Structural)]
pub struct Date {
    pub year: u64,
    pub month: u64,
    pub day: u64,
}

/// A leap year: every fourth, but of the hundredth ones only every fourth.
pub open spec fn is_leap(year: int) -> bool {
    year % 4 == 0 && (year % 100 != 0 || year % 400 == 0)
}

/// The days of a month.
pub open spec fn month_days(year: int, month: int) -> int {
    if month == 2 {
        if is_leap(year) {
            29
        } else {
            28
        }
    } else if month == 4 || month == 6 || month == 9 || month == 11 {
        30
    } else {
        31
    }
}

/// The days of a year before a month.
pub open spec fn days_before_month(year: int, month: int) -> int
    decreases month,
{
    if month <= 1 {
        0
    } else {
        days_before_month(year, month - 1) + month_days(year, month - 1)
    }
}

/// The days of a year.
pub open spec fn year_days(year: int) -> int {
    if is_leap(year) {
        366
    } else {
        365
    }
}

/// The days of all years from the year 0 on, before a year.
pub open spec fn days_before_year(year: int) -> int {
    365 * year + (year + 3) / 4 - (year + 99) / 100 + (year + 399) / 400
}

/// The day 1970-01-01, counted from the first day of the year 0.
pub open spec fn epoch_day() -> int {
    719528
}

impl Date {
    /// A date that is in the calendar.
    pub open spec fn valid(self) -> bool {
        &&& 1 <= self.month <= 12
        &&& 1 <= self.day <= month_days(self.year as int, self.month as int)
    }

    /// The day of the date, counted from the first day of the year 0.
    pub open spec fn day_number(self) -> int {
        days_before_year(self.year as int) + days_before_month(self.year as int, self.month as int)
            + self.day - 1
    }

    /// Whether the date is that many days after 1970-01-01.
    pub open spec fn falls_on(self, days: int) -> bool {
        self.valid() && self.day_number() == epoch_day() + days
    }
}

proof fn lemma_months(year: int)
    ensures
        days_before_month(year, 1) == 0,
        days_before_month(year, 2) == 31,
        ({
            let march = if is_leap(year) {
                60int
            } else {
                59int
            };
            &&& days_before_month(year, 3) == march
            &&& days_before_month(year, 4) == march + 31
            &&& days_before_month(year, 5) == march + 61
            &&& days_before_month(year, 6) == march + 92
            &&& days_before_month(year, 7) == march + 122
            &&& days_before_month(year, 8) == march + 153
            &&& days_before_month(year, 9) == march + 184
            &&& days_before_month(year, 10) == march + 214
            &&& days_before_month(year, 11) == march + 245
            &&& days_before_month(year, 12) == march + 275
        }),
{
    reveal_with_fuel(days_before_month, 13);
}

/// The month and the day of the `doy`-th day of a year that begins in March.
fn month_and_day(doy: u64) -> (r: (u64, u64))
    requires
        doy <= 365,
    ensures
        1 <= r.0 <= 12,
        1 <= r.1 <= 31,
        r.0 == 4 || r.0 == 6 || r.0 == 9 || r.0 == 11 ==> r.1 <= 30,
        r.0 == 2 ==> r.1 <= 29 && (r.1 == 29 ==> doy == 365),
        r.0 == 1 ==> doy == 306 + r.1 - 1,
        r.0 == 2 ==> doy == 337 + r.1 - 1,
        forall|year: int| r.0 >= 3 ==> #[trigger] days_before_month(year, r.0 as int) + r.1 - 1
            == doy + (if is_leap(year) {
            60int
        } else {
            59int
        }),
{
    let (month, first): (u64, u64) = if doy < 31 {
        (3, 0)
    } else if doy < 61 {
        (4, 31)
    } else if doy < 92 {
        (5, 61)
    } else if doy < 122 {
        (6, 92)
    } else if doy < 153 {
        (7, 122)
    } else if doy < 184 {
        (8, 153)
    } else if doy < 214 {
        (9, 184)
    } else if doy < 245 {
        (10, 214)
    } else if doy < 275 {
        (11, 245)
    } else if doy < 306 {
        (12, 275)
    } else if doy < 337 {
        (1, 306)
    } else {
        (2, 337)
    };
    proof {
        assert forall|year: int| month >= 3 implies #[trigger] days_before_month(year, month as int)
            == first + (if is_leap(year) {
            60int
        } else {
            59int
        }) by {
            lemma_months(year);
        }
    }
    (month, doy - first + 1)
}

proof fn lemma_march_year(y: int, era: int, c: int, q: int, r: int)
    requires
        y == 400 * era + 100 * c + 4 * q + r,
        0 <= c <= 3,
        0 <= q <= 24,
        0 <= r <= 3,
    ensures
        y / 4 == 100 * era + 25 * c + q,
        y / 100 == 4 * era + c,
        y / 400 == era,
        y % 4 == r,
        y % 100 == 4 * q + r,
        y % 400 == 100 * c + 4 * q + r,
{
}

spec fn divides(k: int, y: int) -> int {
    if y % k == 0 {
        1
    } else {
        0
    }
}

proof fn lemma_fours(y: int)
    ensures
        (y + 3) / 4 + divides(4, y) == y / 4 + 1,
        (y + 4) / 4 == y / 4 + 1,
{
}

proof fn lemma_hundreds(y: int)
    ensures
        (y + 99) / 100 + divides(100, y) == y / 100 + 1,
        (y + 100) / 100 == y / 100 + 1,
        y % 100 == 0 ==> y % 4 == 0,
{
    let q = y / 100;
    assert(y == 100 * q + y % 100);
    assert(y % 100 == 0 ==> y == 4 * (25 * q));
}

proof fn lemma_four_hundreds(y: int)
    ensures
        (y + 399) / 400 + divides(400, y) == y / 400 + 1,
        (y + 400) / 400 == y / 400 + 1,
        y % 400 == 0 ==> y % 100 == 0,
{
    let q = y / 400;
    assert(y == 400 * q + y % 400);
    assert(y % 400 == 0 ==> y == 100 * (4 * q));
}

proof fn lemma_year_start(y: int)
    requires
        y >= 0,
    ensures
        days_before_year(y) + (if is_leap(y) {
            60int
        } else {
            59int
        }) == 365 * y + y / 4 - y / 100 + y / 400 + 60,
        days_before_year(y + 1) == 365 * y + y / 4 - y / 100 + y / 400 + 366,
{
    lemma_fours(y);
    lemma_hundreds(y);
    lemma_four_hundreds(y);
}

/// The date some days after 1970-01-01.
pub fn civil_from_days(days: u64) -> (r: Date)
    requires
        days < 1000000000000,
    ensures
        r.falls_on(days as int),
{
    let z: u64 = days + 719468;
    let era: u64 = z / 146097;
    let in_era: u64 = z % 146097;
    let c: u64 = if in_era / 36524 > 3 {
        3
    } else {
        in_era / 36524
    };
    let in_century: u64 = in_era - c * 36524;
    let q: u64 = in_century / 1461;
    let in_four: u64 = in_century % 1461;
    let y: u64 = if in_four / 365 > 3 {
        3
    } else {
        in_four / 365
    };
    let doy: u64 = in_four - y * 365;
    let march_year: u64 = era * 400 + c * 100 + q * 4 + y;
    let (month, day) = month_and_day(doy);
    let year: u64 = if month <= 2 {
        march_year + 1
    } else {
        march_year
    };
    let date = Date { year, month, day };
    proof {
        assert(in_century <= 36524);
        assert(c < 3 ==> in_century < 36524);
        assert(q <= 24);
        assert(doy <= 365);
        assert(doy == 365 ==> y == 3 && (q < 24 || c == 3));
        lemma_march_year(march_year as int, era as int, c as int, q as int, y as int);
        lemma_year_start(march_year as int);
        let m = march_year as int;
        assert(z == 365 * m + m / 4 - m / 100 + m / 400 + doy);
        lemma_months(year as int);
        if month == 2 && day == 29 {
            if q < 24 {
                lemma_march_year(m + 1, era as int, c as int, (q + 1) as int, 0);
            } else {
                lemma_march_year(m + 1, (era + 1) as int, 0, 0, 0);
            }
            assert(is_leap(m + 1));
        }
    }
    date
}

/// A number below a hundred with two digits.
pub open spec fn two_digits(n: nat) -> Seq<char> {
    if n < 10 {
        "0"@ + decimal(n)
    } else {
        decimal(n)
    }
}

/// A year with at least four digits.
pub open spec fn four_digits(n: nat) -> Seq<char> {
    if n < 10 {
        "000"@ + decimal(n)
    } else if n < 100 {
        "00"@ + decimal(n)
    } else if n < 1000 {
        "0"@ + decimal(n)
    } else {
        decimal(n)
    }
}

/// A date with an hour and a minute.
pub open spec fn stamp(date: Date, hour: nat, minute: nat) -> Seq<char> {
    four_digits(date.year as nat) + "-"@ + two_digits(date.month as nat) + "-"@ + two_digits(
        date.day as nat,
    ) + " "@ + two_digits(hour) + ":"@ + two_digits(minute)
}

/// The date some days after 1970-01-01.
pub open spec fn date_on(days: int) -> Date {
    choose|date: Date| date.falls_on(days)
}

/// Milliseconds since the beginning of 1970 as a date with an hour and a minute,
/// in universal time.
pub open spec fn minute_stamp(ms: int) -> Seq<char> {
    stamp(
        date_on(ms / 86_400_000),
        ((ms / 3_600_000) % 24) as nat,
        ((ms / 60_000) % 60) as nat,
    )
}

fn two_digit_text(n: u64) -> (r: String)
    ensures
        r@ == two_digits(n as nat),
{
    let digits = decimal_text(n);
    if n < 10 {
        crate::text::cat("0", digits.as_str())
    } else {
        digits
    }
}

fn four_digit_text(n: u64) -> (r: String)
    ensures
        r@ == four_digits(n as nat),
{
    let digits = decimal_text(n);
    if n < 10 {
        crate::text::cat("000", digits.as_str())
    } else if n < 100 {
        crate::text::cat("00", digits.as_str())
    } else if n < 1000 {
        crate::text::cat("0", digits.as_str())
    } else {
        digits
    }
}

proof fn lemma_date_on(date: Date, days: int)
    requires
        date.falls_on(days),
    ensures
        date_on(days) == date,
{
    law_a_day_has_one_date(date, date_on(days));
}

proof fn lemma_seconds(ms: int)
    requires
        0 <= ms,
    ensures
        ms / 1000 / 86_400 == ms / 86_400_000,
        ms / 1000 % 86_400 / 3600 == (ms / 3_600_000) % 24,
        ms / 1000 % 86_400 % 3600 / 60 == (ms / 60_000) % 60,
{
    let s = ms / 1000;
    assert(ms / 86_400_000 == s / 86_400);
    assert(ms / 3_600_000 == s / 3600);
    assert(ms / 60_000 == s / 60);
    assert(s % 86_400 % 3600 == s % 3600);
}

/// Milliseconds since the beginning of 1970 as a date with an hour and a minute,
/// in universal time.
pub fn format_epoch_ms_utc(ms: u64) -> (r: String)
    ensures
        r@ == minute_stamp(ms as int),
        date_on(ms as int / 86_400_000).falls_on(ms as int / 86_400_000),
{
    let secs: u64 = ms / 1000;
    let days: u64 = secs / 86_400;
    let rest: u64 = secs % 86_400;
    let hour: u64 = rest / 3600;
    let minute: u64 = (rest % 3600) / 60;
    let date = civil_from_days(days);
    let mut out = four_digit_text(date.year);
    out.append("-");
    out.append(two_digit_text(date.month).as_str());
    out.append("-");
    out.append(two_digit_text(date.day).as_str());
    out.append(" ");
    out.append(two_digit_text(hour).as_str());
    out.append(":");
    out.append(two_digit_text(minute).as_str());
    proof {
        lemma_seconds(ms as int);
        lemma_date_on(date, ms as int / 86_400_000);
        assert(out@ =~= stamp(date, hour as nat, minute as nat));
    }
    out
}

// ---------------------------------------------------------------------------
// Laws
// ---------------------------------------------------------------------------

/// The years follow one another, each with its days.
pub proof fn law_years_follow_one_another(year: int)
    requires
        year >= 0,
    ensures
        days_before_year(year + 1) == days_before_year(year) + year_days(year),
{
    lemma_year_start(year);
}

/// The months of a year take up its days.
pub proof fn law_months_fill_the_year(year: int)
    ensures
        days_before_month(year, 12) + month_days(year, 12) == year_days(year),
{
    lemma_months(year);
}

proof fn lemma_years_grow(a: int, b: int)
    requires
        0 <= a <= b,
    ensures
        days_before_year(a) <= days_before_year(b),
    decreases b - a,
{
    if a < b {
        lemma_years_grow(a, b - 1);
        law_years_follow_one_another(b - 1);
    }
}

proof fn lemma_months_grow(year: int, a: int, b: int)
    requires
        1 <= a < b,
    ensures
        days_before_month(year, a) + month_days(year, a) <= days_before_month(year, b),
    decreases b - a,
{
    if a + 1 < b {
        lemma_months_grow(year, a, b - 1);
    }
}

proof fn lemma_within_year(date: Date)
    requires
        date.valid(),
    ensures
        days_before_year(date.year as int) <= date.day_number() < days_before_year(
            date.year as int + 1,
        ),
{
    let year = date.year as int;
    let month = date.month as int;
    law_years_follow_one_another(year);
    law_months_fill_the_year(year);
    if month < 12 {
        lemma_months_grow(year, month, 12);
    }
    lemma_months(year);
}

/// Two dates that fall on one day are the same.
pub proof fn law_a_day_has_one_date(a: Date, b: Date)
    requires
        a.valid(),
        b.valid(),
        a.day_number() == b.day_number(),
    ensures
        a == b,
{
    lemma_within_year(a);
    lemma_within_year(b);
    if a.year < b.year {
        lemma_years_grow(a.year as int + 1, b.year as int);
    } else if b.year < a.year {
        lemma_years_grow(b.year as int + 1, a.year as int);
    } else if a.month < b.month {
        lemma_months_grow(a.year as int, a.month as int, b.month as int);
    } else if b.month < a.month {
        lemma_months_grow(a.year as int, b.month as int, a.month as int);
    }
}

proof fn lemma_years_are_long(year: int)
    requires
        year >= 0,
    ensures
        days_before_year(year) >= 365 * year,
{
    lemma_year_start(year);
}

proof fn lemma_next_day(date: Date, days: int) -> (next: Date)
    requires
        date.falls_on(days),
        date.year < u64::MAX,
    ensures
        next.falls_on(days + 1),
{
    let year = date.year as int;
    let month = date.month as int;
    if date.day < month_days(year, month) {
        Date { day: (date.day + 1) as u64, ..date }
    } else if month < 12 {
        let next = Date { month: (date.month + 1) as u64, day: 1, ..date };
        assert(days_before_month(year, month + 1) == days_before_month(year, month) + month_days(
            year,
            month,
        ));
        next
    } else {
        law_years_follow_one_another(year);
        law_months_fill_the_year(year);
        lemma_months(year + 1);
        Date { year: (date.year + 1) as u64, month: 1, day: 1 }
    }
}

/// Every day has a date.
pub proof fn law_every_day_has_a_date(days: int)
    requires
        0 <= days < 1000000000000,
    ensures
        date_on(days).falls_on(days),
    decreases days,
{
    if days == 0 {
        let first = Date { year: 1970, month: 1, day: 1 };
        lemma_months(1970);
        assert(first.falls_on(0));
    } else {
        law_every_day_has_a_date(days - 1);
        let before = date_on(days - 1);
        lemma_within_year(before);
        lemma_years_are_long(before.year as int);
        let date = lemma_next_day(before, days - 1);
        assert(date.falls_on(days));
    }
}

/// Of two days, the earlier one has the earlier date: by its year, then by its
/// month, then by its day.
pub proof fn law_earlier_days_have_earlier_dates(a: Date, b: Date)
    requires
        a.valid(),
        b.valid(),
        a.day_number() < b.day_number(),
    ensures
        a.year < b.year || (a.year == b.year && (a.month < b.month || (a.month == b.month && a.day
            < b.day))),
{
    lemma_within_year(a);
    lemma_within_year(b);
    if b.year < a.year {
        lemma_years_grow(b.year as int + 1, a.year as int);
    } else if a.year == b.year && b.month < a.month {
        lemma_months_grow(a.year as int, b.month as int, a.month as int);
    }
}

proof fn lemma_two_digits(n: nat)
    requires
        n < 100,
    ensures
        two_digits(n) == seq![digit(n / 10), digit(n % 10)],
{
    reveal_strlit("0");
    reveal_with_fuel(decimal, 3);
    assert(two_digits(n) =~= seq![digit(n / 10), digit(n % 10)]);
}

proof fn lemma_four_digits(n: nat)
    requires
        n < 10000,
    ensures
        four_digits(n) == seq![
            digit(n / 1000),
            digit(n / 100 % 10),
            digit(n / 10 % 10),
            digit(n % 10),
        ],
{
    reveal_strlit("0");
    reveal_strlit("00");
    reveal_strlit("000");
    reveal_with_fuel(decimal, 5);
    assert(n / 10 / 10 == n / 100);
    assert(n / 10 / 10 / 10 == n / 1000);
    assert(four_digits(n) =~= seq![
        digit(n / 1000),
        digit(n / 100 % 10),
        digit(n / 10 % 10),
        digit(n % 10),
    ]);
}

proof fn lemma_digits_grow(a: nat, b: nat)
    requires
        a < b < 10,
    ensures
        (digit(a) as int) < (digit(b) as int),
{
}

/// The characters of a date with an hour and a minute.
#[verifier::opaque]
spec fn stamp_chars(date: Date, hour: nat, minute: nat) -> Seq<char> {
    let y = date.year as nat;
    let m = date.month as nat;
    let d = date.day as nat;
    seq![
        digit(y / 1000),
        digit(y / 100 % 10),
        digit(y / 10 % 10),
        digit(y % 10),
        '-',
        digit(m / 10),
        digit(m % 10),
        '-',
        digit(d / 10),
        digit(d % 10),
        ' ',
        digit(hour / 10),
        digit(hour % 10),
        ':',
        digit(minute / 10),
        digit(minute % 10),
    ]
}

proof fn lemma_stamp_chars(date: Date, hour: nat, minute: nat)
    requires
        date.valid(),
        date.year < 10000,
        hour < 24,
        minute < 60,
    ensures
        stamp(date, hour, minute) == stamp_chars(date, hour, minute),
{
    reveal_strlit("-");
    reveal_strlit(" ");
    reveal_strlit(":");
    lemma_four_digits(date.year as nat);
    lemma_two_digits(date.month as nat);
    lemma_two_digits(date.day as nat);
    lemma_two_digits(hour);
    lemma_two_digits(minute);
    reveal(stamp_chars);
    assert(stamp(date, hour, minute) =~= stamp_chars(date, hour, minute));
}

/// Two texts that are the same up to some place, where two digits of each follow,
/// stand in the order of the numbers that those write.
proof fn lemma_two_digits_decide(a: Seq<char>, b: Seq<char>, i: int, m: nat, n: nat)
    requires
        m < n < 100,
        0 <= i,
        i + 1 < a.len(),
        i + 1 < b.len(),
        forall|k: int| 0 <= k < i ==> a[k] == b[k],
        a[i] == digit(m / 10),
        a[i + 1] == digit(m % 10),
        b[i] == digit(n / 10),
        b[i + 1] == digit(n % 10),
    ensures
        precedes(a, b),
{
    if m / 10 < n / 10 {
        lemma_digits_grow(m / 10, n / 10);
        lemma_precedes_at(a, b, i);
    } else {
        lemma_digits_grow(m % 10, n % 10);
        lemma_precedes_at(a, b, i + 1);
    }
}

proof fn lemma_halves_of_four_digits(n: nat)
    ensures
        n / 1000 == n / 100 / 10,
        n / 10 % 10 == (n % 100) / 10,
        n % 10 == (n % 100) % 10,
        n == 100 * (n / 100) + n % 100,
{
}

proof fn lemma_year_decides(a: Date, h: nat, i: nat, b: Date, k: nat, l: nat)
    requires
        a.year < b.year < 10000,
    ensures
        precedes(stamp_chars(a, h, i), stamp_chars(b, k, l)),
{
    reveal(stamp_chars);
    let x = stamp_chars(a, h, i);
    let y = stamp_chars(b, k, l);
    let m = a.year as nat;
    let n = b.year as nat;
    lemma_halves_of_four_digits(m);
    lemma_halves_of_four_digits(n);
    if m / 100 < n / 100 {
        lemma_two_digits_decide(x, y, 0, m / 100, n / 100);
    } else {
        assert(m / 100 == n / 100 && m % 100 < n % 100);
        lemma_two_digits_decide(x, y, 2, m % 100, n % 100);
    }
}

proof fn lemma_month_decides(a: Date, h: nat, i: nat, b: Date, k: nat, l: nat)
    requires
        a.year == b.year,
        a.month < b.month < 100,
    ensures
        precedes(stamp_chars(a, h, i), stamp_chars(b, k, l)),
{
    reveal(stamp_chars);
    let x = stamp_chars(a, h, i);
    let y = stamp_chars(b, k, l);
    lemma_two_digits_decide(x, y, 5, a.month as nat, b.month as nat);
}

proof fn lemma_day_decides(a: Date, h: nat, i: nat, b: Date, k: nat, l: nat)
    requires
        a.year == b.year,
        a.month == b.month,
        a.day < b.day < 100,
    ensures
        precedes(stamp_chars(a, h, i), stamp_chars(b, k, l)),
{
    reveal(stamp_chars);
    let x = stamp_chars(a, h, i);
    let y = stamp_chars(b, k, l);
    lemma_two_digits_decide(x, y, 8, a.day as nat, b.day as nat);
}

proof fn lemma_hour_decides(a: Date, h: nat, i: nat, k: nat, l: nat)
    requires
        h < k < 100,
    ensures
        precedes(stamp_chars(a, h, i), stamp_chars(a, k, l)),
{
    reveal(stamp_chars);
    lemma_two_digits_decide(stamp_chars(a, h, i), stamp_chars(a, k, l), 11, h, k);
}

proof fn lemma_minute_decides(a: Date, h: nat, i: nat, l: nat)
    requires
        i < l < 100,
    ensures
        precedes(stamp_chars(a, h, i), stamp_chars(a, h, l)),
{
    reveal(stamp_chars);
    lemma_two_digits_decide(stamp_chars(a, h, i), stamp_chars(a, h, l), 14, i, l);
}

/// A date, an hour and a minute before others are written before them.
proof fn lemma_stamps_in_order(a: Date, h: nat, i: nat, b: Date, k: nat, l: nat)
    requires
        a.valid(),
        b.valid(),
        a.year < 10000,
        b.year < 10000,
        h < 24,
        k < 24,
        i < 60,
        l < 60,
        a.day_number() < b.day_number() || (a == b && (h < k || (h == k && i < l))),
    ensures
        precedes(stamp(a, h, i), stamp(b, k, l)),
{
    lemma_stamp_chars(a, h, i);
    lemma_stamp_chars(b, k, l);
    if a == b {
        if h < k {
            lemma_hour_decides(a, h, i, k, l);
        } else {
            lemma_minute_decides(a, h, i, l);
        }
    } else {
        law_earlier_days_have_earlier_dates(a, b);
        if a.year < b.year {
            lemma_year_decides(a, h, i, b, k, l);
        } else if a.month < b.month {
            lemma_month_decides(a, h, i, b, k, l);
        } else {
            lemma_day_decides(a, h, i, b, k, l);
        }
    }
}

/// The first millisecond of the year 10000.
pub const END_OF_FOUR_DIGIT_YEARS: u64 = 253402300800000;

proof fn lemma_four_digit_year(ms: int)
    requires
        0 <= ms < END_OF_FOUR_DIGIT_YEARS,
    ensures
        date_on(ms / 86_400_000).falls_on(ms / 86_400_000),
        date_on(ms / 86_400_000).year < 10000,
        0 <= (ms / 3_600_000) % 24 < 24,
        0 <= (ms / 60_000) % 60 < 60,
{
    let days = ms / 86_400_000;
    assert(0 <= days < 2932897);
    law_every_day_has_a_date(days);
    let date = date_on(days);
    lemma_within_year(date);
    if date.year >= 10000 {
        lemma_years_grow(10000, date.year as int);
    }
}

/// A time before the year 10000 is written in sixteen characters: a year of four
/// digits, a month, a day that the month has, an hour and a minute of two digits
/// each.
pub proof fn law_times_have_one_shape(ms: u64)
    requires
        ms < END_OF_FOUR_DIGIT_YEARS,
    ensures
        ({
            let s = minute_stamp(ms as int);
            let date = date_on(ms as int / 86_400_000);
            &&& s.len() == 16
            &&& s[4] == '-' && s[7] == '-' && s[10] == ' ' && s[13] == ':'
            &&& date.valid()
            &&& digits_value(s.subrange(0, 4)) == date.year
            &&& digits_value(s.subrange(5, 7)) == date.month
            &&& digits_value(s.subrange(8, 10)) == date.day
            &&& digits_value(s.subrange(11, 13)) == (ms / 3_600_000) % 24
            &&& digits_value(s.subrange(14, 16)) == (ms / 60_000) % 60
            &&& digits_value(s.subrange(11, 13)) <= 23
            &&& digits_value(s.subrange(14, 16)) <= 59
        }),
{
    lemma_four_digit_year(ms as int);
    let date = date_on(ms as int / 86_400_000);
    let hour = ((ms as int / 3_600_000) % 24) as nat;
    let minute = ((ms as int / 60_000) % 60) as nat;
    lemma_stamp_chars(date, hour, minute);
    reveal(stamp_chars);
    let s = minute_stamp(ms as int);
    let y = date.year as nat;
    assert(s.subrange(0, 4) =~= seq![
        digit(y / 1000),
        digit(y / 100 % 10),
        digit(y / 10 % 10),
        digit(y % 10),
    ]);
    lemma_four_digits_value(y);
    lemma_two_digits_value(s.subrange(5, 7), date.month as nat);
    lemma_two_digits_value(s.subrange(8, 10), date.day as nat);
    lemma_two_digits_value(s.subrange(11, 13), hour);
    lemma_two_digits_value(s.subrange(14, 16), minute);
}

proof fn lemma_digit_value(d: nat)
    requires
        d < 10,
    ensures
        digit(d) as u32 - '0' as u32 == d,
{
}

proof fn lemma_two_digits_value(s: Seq<char>, n: nat)
    requires
        n < 100,
        s.len() == 2,
        s[0] == digit(n / 10),
        s[1] == digit(n % 10),
    ensures
        digits_value(s) == n,
{
    reveal_with_fuel(digits_value, 3);
    lemma_digit_value(n / 10);
    lemma_digit_value(n % 10);
    assert(s.drop_last().last() == s[0]);
    assert(s.drop_last().drop_last() =~= Seq::<char>::empty());
}

proof fn lemma_four_digits_value(n: nat)
    requires
        n < 10000,
    ensures
        digits_value(
            seq![digit(n / 1000), digit(n / 100 % 10), digit(n / 10 % 10), digit(n % 10)],
        ) == n,
{
    let s = seq![digit(n / 1000), digit(n / 100 % 10), digit(n / 10 % 10), digit(n % 10)];
    let head = s.drop_last().drop_last();
    assert(n / 1000 == n / 100 / 10);
    lemma_two_digits_value(head, n / 100);
    lemma_digit_value(n / 10 % 10);
    lemma_digit_value(n % 10);
    assert(s.last() == digit(n % 10));
    assert(s.drop_last().last() == digit(n / 10 % 10));
    assert(digits_value(s.drop_last()) == 10 * (n / 100) + n / 10 % 10);
    assert(digits_value(s) == 10 * digits_value(s.drop_last()) + n % 10);
}

/// Of two times, the later one is of the same minute, or later on the clock of the
/// same day, or of a later day.
proof fn lemma_clock(a: int, b: int)
    requires
        0 <= a <= b,
    ensures
        a / 60_000 == b / 60_000 ==> a / 86_400_000 == b / 86_400_000 && a / 3_600_000 == b
            / 3_600_000,
        a / 86_400_000 <= b / 86_400_000,
        a / 60_000 != b / 60_000 && a / 86_400_000 == b / 86_400_000 ==> {
            let (h, i) = ((a / 3_600_000) % 24, (a / 60_000) % 60);
            let (k, l) = ((b / 3_600_000) % 24, (b / 60_000) % 60);
            h < k || (h == k && i < l)
        },
{
    let m = a / 60_000;
    let n = b / 60_000;
    assert(a / 3_600_000 == m / 60);
    assert(b / 3_600_000 == n / 60);
    assert(a / 86_400_000 == m / 1440);
    assert(b / 86_400_000 == n / 1440);
    assert(m / 60 / 24 == m / 1440);
    assert(n / 60 / 24 == n / 1440);
}

/// Before the year 10000, of two times the later one is written later, or the
/// same where both fall into one minute, and only there.
pub proof fn law_later_times_are_written_later(a: u64, b: u64)
    requires
        a <= b < END_OF_FOUR_DIGIT_YEARS,
    ensures
        !precedes(minute_stamp(b as int), minute_stamp(a as int)),
        minute_stamp(a as int) == minute_stamp(b as int) <==> a / 60_000 == b / 60_000,
        a / 60_000 < b / 60_000 ==> precedes(minute_stamp(a as int), minute_stamp(b as int)),
{
    lemma_four_digit_year(a as int);
    lemma_four_digit_year(b as int);
    let day_a = a as int / 86_400_000;
    let day_b = b as int / 86_400_000;
    let x = minute_stamp(a as int);
    let y = minute_stamp(b as int);
    lemma_clock(a as int, b as int);
    if a / 60_000 == b / 60_000 {
        lemma_precedes_irreflexive(x);
    } else {
        let (h, i) = ((a as int / 3_600_000) % 24, (a as int / 60_000) % 60);
        let (k, l) = ((b as int / 3_600_000) % 24, (b as int / 60_000) % 60);
        lemma_stamps_in_order(date_on(day_a), h as nat, i as nat, date_on(day_b), k as nat, l as nat);
        lemma_precedes_irreflexive(x);
        if precedes(y, x) {
            lemma_precedes_transitive(x, y, x);
        }
    }
}

/// Days are counted from the first of January 1970.
pub proof fn law_days_are_counted_from_1970()
    ensures
        (Date { year: 1970, month: 1, day: 1 }).falls_on(0),
        (Date { year: 1970, month: 1, day: 2 }).falls_on(1),
        (Date { year: 1969, month: 12, day: 31 }).falls_on(-1),
{
    lemma_months(1970);
    lemma_months(1969);
}

/// Every fourth year is a leap year, but of the full centuries only every fourth.
pub proof fn law_leap_years_are_every_fourth(year: int)
    ensures
        year % 400 == 0 ==> is_leap(year),
        year % 100 == 0 && year % 400 != 0 ==> !is_leap(year),
        year % 4 == 0 && year % 100 != 0 ==> is_leap(year),
        year % 4 != 0 ==> !is_leap(year),
        month_days(year, 2) == (if is_leap(year) { 29int } else { 28int }),
        year_days(year) == 337 + month_days(year, 2),
{
    lemma_hundreds(year);
    lemma_four_hundreds(year);
}

} // verus!
