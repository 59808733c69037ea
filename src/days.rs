//! Weeks of the calendar. A day is its number in the proleptic Gregorian
//! calendar counted from January 1 of year 1, which is day 1 and a Monday.

use vstd::prelude::*;
use vstd::arithmetic::div_mod::lemma_mod_multiples_vanish;
use chrono::{Datelike, NaiveDate};

verus! {

/// The ISO week of day `day`, as its year and its number.
pub uninterp spec fn iso_week_of(day: int) -> (i32, u32);

/// Relies on `chrono::NaiveDate::from_num_days_from_ce_opt` and `iso_week`:
/// a day of chrono's range (which covers every year from -246_000 to 246_000)
/// has an ISO week numbered from 1 to 53.
#[verifier::external_body]
fn iso_week(day: i32) -> (r: Option<(i32, u32)>)
    ensures
        -90_000_000 <= day <= 90_000_000 ==> r is Some,
        r is Some ==> r->0 == iso_week_of(day as int),
        r is Some ==> 1 <= (r->0).1 <= 53,
{
    match NaiveDate::from_num_days_from_ce_opt(day) {
        Some(d) => Some((d.iso_week().year(), d.iso_week().week())),
        None => None,
    }
}

/// Relies on `chrono::Local::now`: today's number in the local time zone.
#[verifier::external_body]
fn today() -> (r: i32) {
    chrono::Local::now().date_naive().num_days_from_ce()
}

/// Days since the last Sunday: 0 for a Sunday, 1 for a Monday, up to 6.
pub open spec fn days_from_sunday(day: int) -> int {
    day % 7
}

/// The Monday of the week `rel_week_offset` weeks away from the week of
/// `today`, where a week runs from Sunday to Saturday and a Sunday counts
/// with the Monday after it.
pub open spec fn monday_spec(today: int, rel_week_offset: int) -> int {
    today + 1 - days_from_sunday(today) + 7 * rel_week_offset
}

pub open spec fn fits_i32(x: int) -> bool {
    i32::MIN <= x <= i32::MAX
}

/// Spec model of a [`DayRange`].
pub struct DayRangeV {
    pub first: int,
    pub year: i32,
    pub week: u32,
}

/// A run of days from a first day, with the ISO week of that day.
pub struct DayRange {
    first: i32,
    year: i32,
    week: u32,
}

impl View for DayRange {
    type V = DayRangeV;

    closed spec fn view(&self) -> DayRangeV {
        DayRangeV { first: self.first as int, year: self.year, week: self.week }
    }
}

impl DayRange {
    /// The Monday of the week `rel_week_offset` weeks from the week of
    /// `today`, if its number fits an `i32`.
    pub fn monday(today: i32, rel_week_offset: i64) -> (r: Option<i32>)
        ensures
            r is Some <==> fits_i32(monday_spec(today as int, rel_week_offset as int)),
            r is Some ==> r->0 as int == monday_spec(today as int, rel_week_offset as int),
    {
        let shifted: i64 = today as i64 + 7 * 306_783_379;
        let back: i64 = shifted % 7;
        proof {
            lemma_mod_multiples_vanish(306_783_379, today as int, 7);
            assert(back == days_from_sunday(today as int));
        }
        let base: i64 = today as i64 + 1 - back;
        if rel_week_offset > (i32::MAX as i64) || rel_week_offset < (i32::MIN as i64) {
            return None;
        }
        let m: i64 = base + 7 * rel_week_offset;
        if m > i32::MAX as i64 || m < i32::MIN as i64 {
            None
        } else {
            Some(m as i32)
        }
    }

    /// The range that starts on day `first`, if chrono knows its ISO week.
    pub fn from(first: i32) -> (r: Option<DayRange>)
        ensures
            -90_000_000 <= first <= 90_000_000 ==> r is Some,
            r is Some ==> r->0@ == (DayRangeV {
                first: first as int,
                year: iso_week_of(first as int).0,
                week: iso_week_of(first as int).1,
            }),
            r is Some ==> 1 <= r->0@.week <= 53,
    {
        match iso_week(first) {
            Some((year, week)) => Some(DayRange { first, year, week }),
            None => None,
        }
    }

    /// The range that starts on the Monday of the week `rel_week_offset`
    /// weeks from the week of day `today`.
    pub fn from_monday_of(today: i32, rel_week_offset: i64) -> (r: Option<DayRange>)
        ensures
            ({
                let m = monday_spec(today as int, rel_week_offset as int);
                &&& -90_000_000 <= m <= 90_000_000 ==> r is Some
                &&& r is Some ==> r->0@.first == m && r->0@.year == iso_week_of(m).0 && r->0@.week
                    == iso_week_of(m).1
            }),
    {
        match DayRange::monday(today, rel_week_offset) {
            Some(m) => DayRange::from(m),
            None => None,
        }
    }

    /// The range that starts on the Monday of the week `rel_week_offset`
    /// weeks from this one, in the local time zone.
    pub fn from_monday(rel_week_offset: i64) -> (r: Option<DayRange>)
        ensures
            r is Some ==> exists|today: int|
                #![trigger monday_spec(today, rel_week_offset as int)]
                r->0@.first == monday_spec(today, rel_week_offset as int) && r->0@.year == iso_week_of(
                    r->0@.first,
                ).0 && r->0@.week == iso_week_of(r->0@.first).1,
    {
        let today = today();
        DayRange::from_monday_of(today, rel_week_offset)
    }

    /// The first `num_days` days of the range, one after the other.
    pub fn range(&self, num_days: i64) -> (r: DayRangeIterator)
        requires
            self@.first + num_days <= i32::MAX,
        ensures
            r.wf(),
            r@ == (self@.first, num_days as int),
    {
        DayRangeIterator::new(self.first, num_days)
    }

    /// The first day.
    pub fn first(&self) -> (r: i32)
        ensures
            r == self@.first,
    {
        self.first
    }

    /// The ISO week number of the first day.
    pub fn week_num(&self) -> (r: u32)
        ensures
            r == self@.week,
    {
        self.week
    }

    /// The year of the ISO week of the first day.
    pub fn year(&self) -> (r: i32)
        ensures
            r == self@.year,
    {
        self.year
    }
}

/// The days of a range still to be handed out: the next one and how many.
pub struct DayRangeIterator {
    first: i32,
    days: i64,
}

impl View for DayRangeIterator {
    type V = (int, int);

    closed spec fn view(&self) -> (int, int) {
        (self.first as int, self.days as int)
    }
}

impl DayRangeIterator {
    /// Every day still to come fits an `i32`.
    pub open spec fn wf(&self) -> bool {
        self@.1 <= 0 || self@.0 + self@.1 <= i32::MAX
    }

    fn new(first: i32, days: i64) -> (r: DayRangeIterator)
        requires
            first + days <= i32::MAX,
        ensures
            r.wf(),
            r@ == (first as int, days as int),
    {
        DayRangeIterator { first, days }
    }

    /// The next day, if any is left.
    pub fn next(&mut self) -> (r: Option<i32>)
        requires
            old(self).wf(),
        ensures
            final(self).wf(),
            old(self)@.1 <= 0 ==> r is None && final(self)@ == old(self)@,
            old(self)@.1 > 0 ==> r == Some(old(self)@.0 as i32) && final(self)@ == (
                old(self)@.0 + 1,
                old(self)@.1 - 1,
            ),
    {
        if self.days <= 0 {
            return None;
        }
        let ret = self.first;
        self.first = self.first + 1;
        self.days = self.days - 1;
        Some(ret)
    }
}

} // verus!
