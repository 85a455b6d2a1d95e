//! Calendar arithmetic behind the date labels of reports: where a day of
//! the year falls among the months.
use vstd::prelude::*;

verus! {

/// Days in `month` (1 = January, ..., 12 = December).
pub open spec fn month_length(month: nat, leap: bool) -> nat {
    if month == 2 {
        if leap {
            29
        } else {
            28
        }
    } else if month == 4 || month == 6 || month == 9 || month == 11 {
        30
    } else {
        31
    }
}

/// Days in the months of the year before `month`.
pub open spec fn days_before(month: nat, leap: bool) -> nat
    decreases month,
{
    if month <= 1 {
        0
    } else {
        days_before((month - 1) as nat, leap) + month_length((month - 1) as nat, leap)
    }
}

/// Days in the whole year.
pub open spec fn year_length(leap: bool) -> nat {
    days_before(13, leap)
}

/// Days in the year: 366 in a leap year, else 365.
pub fn days_in_year(leap: bool) -> (r: u32)
    ensures
        r == year_length(leap),
        r == (if leap { 366u32 } else { 365u32 }),
{
    assert(year_length(leap) == (if leap { 366nat } else { 365nat })) by {
        reveal_with_fuel(days_before, 13);
    }
    if leap {
        366
    } else {
        365
    }
}

/// Days in `month`.
pub fn days_in_month(month: u32, leap: bool) -> (r: u32)
    requires
        1 <= month <= 12,
    ensures
        r == month_length(month as nat, leap),
{
    if month == 2 {
        if leap {
            29
        } else {
            28
        }
    } else if month == 4 || month == 6 || month == 9 || month == 11 {
        30
    } else {
        31
    }
}

/// The month (1 to 12) and the day of that month (from 1) on which the
/// `day_of_year`-th day of the year falls, counting January 1 as day 1.
pub fn month_and_day(day_of_year: u32, leap: bool) -> (r: (u32, u32))
    requires
        1 <= day_of_year <= year_length(leap),
    ensures
        1 <= r.0 <= 12,
        1 <= r.1 <= month_length(r.0 as nat, leap),
        days_before(r.0 as nat, leap) + r.1 == day_of_year,
{
    assert(year_length(leap) == (if leap { 366nat } else { 365nat })) by {
        reveal_with_fuel(days_before, 13);
    }
    let mut month: u32 = 1;
    let mut before: u32 = 0;
    while month < 12 && before + days_in_month(month, leap) < day_of_year
        invariant
            1 <= month <= 12,
            before == days_before(month as nat, leap),
            before < day_of_year,
            day_of_year <= year_length(leap),
            year_length(leap) <= 366,
        decreases 12 - month,
    {
        assert(days_before(month as nat, leap) + month_length(month as nat, leap) <= year_length(
            leap,
        )) by {
            lemma_days_before_grows(month as nat, 13, leap);
        }
        before = before + days_in_month(month, leap);
        month = month + 1;
    }
    if month == 12 {
        assert(days_before(12, leap) + month_length(12, leap) == year_length(leap));
    }
    (month, day_of_year - before)
}

/// `days_before` does not decrease from one month to a later one, and a
/// month's days lie before the next month.
proof fn lemma_days_before_grows(m: nat, n: nat, leap: bool)
    requires
        1 <= m < n,
    ensures
        days_before(m, leap) + month_length(m, leap) <= days_before(n, leap),
    decreases n - m,
{
    if n > m + 1 {
        lemma_days_before_grows(m, (n - 1) as nat, leap);
    }
}

} // verus!
