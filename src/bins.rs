//! Collection-day rules: which bins go out, and the seasons of the seasonal collections.
//! Dates are plain values: a month and a day, a weekday, a count of days.
use vstd::prelude::*;

verus! {

/// Which of the alternating bins goes out this week.
#[derive(Clone, Copy, Debug, PartialEq, Eq)]
pub enum BinVariation {
    /// Garbage (and yard waste in season).
    Yellow,
    /// Recycling: the blue bin.
    Blue,
}

/// (month, day) falls on or between two dates of one year.
pub open spec fn within(month: u32, day: u32, from: (u32, u32), to: (u32, u32)) -> bool {
    ((month > from.0) || (month == from.0 && day >= from.1)) && ((month < to.0) || (month
        == to.0 && day <= to.1))
}

fn date_within(month: u32, day: u32, from: (u32, u32), to: (u32, u32)) -> (r: bool)
    ensures
        r == within(month, day, from, to),
{
    ((month > from.0) || (month == from.0 && day >= from.1)) && ((month < to.0) || (month == to.0
        && day <= to.1))
}

/// Yard waste is collected from March 20 to December 11.
pub fn is_yard_waste_season(month: u32, day: u32) -> (r: bool)
    ensures
        r == within(month, day, (3, 20), (12, 11)),
{
    date_within(month, day, (3, 20), (12, 11))
}

/// Christmas trees are collected from January 6 to January 31.
pub fn is_christmas_tree_season(month: u32, day: u32) -> (r: bool)
    ensures
        r == within(month, day, (1, 6), (1, 31)),
{
    date_within(month, day, (1, 6), (1, 31))
}

/// The remainder of `days` by 14, with the sign of `days`.
pub open spec fn cycle_day(days: int) -> int {
    if days >= 0 {
        days % 14
    } else {
        -((-days) % 14)
    }
}

/// The bins alternate on a two-week cycle counted from a known garbage day: days 1 to 7 after
/// it are recycling weeks; the cycle day 0, and days before the reference, are garbage weeks.
pub open spec fn alternate_bin(days: int) -> BinVariation {
    let w = cycle_day(days);
    if w != 0 && w <= 7 {
        BinVariation::Blue
    } else {
        BinVariation::Yellow
    }
}

/// The bins for a day `days_since_reference` days after a known garbage day.
pub fn get_alternate_bin(days_since_reference: i64) -> (r: BinVariation)
    ensures
        r == alternate_bin(days_since_reference as int),
{
    let w: i64 = if days_since_reference >= 0 {
        days_since_reference % 14
    } else if days_since_reference == i64::MIN {
        -((-(days_since_reference + 14)) % 14)
    } else {
        -((-days_since_reference) % 14)
    };
    proof {
        if days_since_reference == i64::MIN {
            let d = days_since_reference as int;
            assert((-(d + 14)) % 14 == (-d) % 14) by (nonlinear_arith);
        }
    }
    if w != 0 && w <= 7 {
        BinVariation::Blue
    } else {
        BinVariation::Yellow
    }
}

/// Days from a weekday (0 for Monday) to the next collection day, Thursday.
pub open spec fn days_to_pickup(weekday: u32) -> u32 {
    ((3 + 7 - weekday) % 7) as u32
}

/// Days from a weekday (0 for Monday) to the next Thursday collection, 0 on Thursday.
pub fn days_until_pickup(weekday_from_monday: u32) -> (r: u32)
    requires
        weekday_from_monday < 7,
    ensures
        r == days_to_pickup(weekday_from_monday),
        r < 7,
{
    (3 + 7 - weekday_from_monday) % 7
}

} // verus!
