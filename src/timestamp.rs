//! Naive (zone-less) observation timestamps and their display form.

use vstd::prelude::*;

use crate::text::{padded_digits, push_padded};

verus! {

pub open spec fn is_leap_year(y: int) -> bool {
    (y % 4 == 0 && y % 100 != 0) || y % 400 == 0
}

/// The number of days of `month` (1 to 12) in `year`.
pub open spec fn days_in_month(year: int, month: int) -> int {
    if month == 2 {
        if is_leap_year(year) { 29 } else { 28 }
    } else if month == 4 || month == 6 || month == 9 || month == 11 {
        30
    } else {
        31
    }
}

/// A valid calendar date and time of day, year 0 to 9999.
pub open spec fn is_valid_timestamp(
    year: int,
    month: int,
    day: int,
    hour: int,
    minute: int,
    second: int,
) -> bool {
    &&& 0 <= year <= 9999
    &&& 1 <= month <= 12
    &&& 1 <= day <= days_in_month(year, month)
    &&& 0 <= hour < 24
    &&& 0 <= minute < 60
    &&& 0 <= second < 60
}

/// A calendar date and time of day, without time zone.
#[derive(Clone, Copy, Debug, PartialEq, Eq)]
pub struct Timestamp {
    year: u16,
    month: u8,
    day: u8,
    hour: u8,
    minute: u8,
    second: u8,
}

impl View for Timestamp {
    type V = (int, int, int, int, int, int);

    /// `(year, month, day, hour, minute, second)`.
    closed spec fn view(&self) -> (int, int, int, int, int, int) {
        (
            self.year as int,
            self.month as int,
            self.day as int,
            self.hour as int,
            self.minute as int,
            self.second as int,
        )
    }
}

/// The display form `YYYY-MM-DD \nHH:MM:SS` of a timestamp view.
pub open spec fn timestamp_text(t: (int, int, int, int, int, int)) -> Seq<char> {
    padded_digits(t.0 as nat, 4) + seq!['-'] + padded_digits(t.1 as nat, 2) + seq!['-']
        + padded_digits(t.2 as nat, 2) + seq![' ', '\n'] + padded_digits(t.3 as nat, 2)
        + seq![':'] + padded_digits(t.4 as nat, 2) + seq![':'] + padded_digits(t.5 as nat, 2)
}

impl Timestamp {
    #[verifier::type_invariant]
    spec fn well_formed(self) -> bool {
        is_valid_timestamp(
            self.year as int,
            self.month as int,
            self.day as int,
            self.hour as int,
            self.minute as int,
            self.second as int,
        )
    }

    /// The timestamp with these fields, when they form a valid date and time.
    pub fn new(year: u16, month: u8, day: u8, hour: u8, minute: u8, second: u8) -> (r: Option<
        Timestamp,
    >)
        ensures
            r is Some <==> is_valid_timestamp(
                year as int,
                month as int,
                day as int,
                hour as int,
                minute as int,
                second as int,
            ),
            r matches Some(t) ==> t@ == (
                year as int,
                month as int,
                day as int,
                hour as int,
                minute as int,
                second as int,
            ),
    {
        if year > 9999 || month < 1 || month > 12 || hour >= 24 || minute >= 60 || second >= 60 {
            return None;
        }
        let leap = (year % 4 == 0 && year % 100 != 0) || year % 400 == 0;
        let days: u8 = if month == 2 {
            if leap { 29 } else { 28 }
        } else if month == 4 || month == 6 || month == 9 || month == 11 {
            30
        } else {
            31
        };
        if day < 1 || day > days {
            return None;
        }
        Some(Timestamp { year, month, day, hour, minute, second })
    }

    pub fn year(&self) -> (r: u16)
        ensures
            r == self@.0,
    {
        self.year
    }

    pub fn month(&self) -> (r: u8)
        ensures
            r == self@.1,
    {
        self.month
    }

    pub fn day(&self) -> (r: u8)
        ensures
            r == self@.2,
    {
        self.day
    }

    pub fn hour(&self) -> (r: u8)
        ensures
            r == self@.3,
    {
        self.hour
    }

    pub fn minute(&self) -> (r: u8)
        ensures
            r == self@.4,
    {
        self.minute
    }

    pub fn second(&self) -> (r: u8)
        ensures
            r == self@.5,
    {
        self.second
    }

    /// The display form `YYYY-MM-DD \nHH:MM:SS`.
    pub fn to_text(&self) -> (r: String)
        ensures
            r@ == timestamp_text(self@),
    {
        let mut out = String::new();
        push_padded(&mut out, self.year as u128, 4);
        proof {
            reveal_strlit("-");
            reveal_strlit(" \n");
            reveal_strlit(":");
        }
        out.append("-");
        push_padded(&mut out, self.month as u128, 2);
        out.append("-");
        push_padded(&mut out, self.day as u128, 2);
        out.append(" \n");
        push_padded(&mut out, self.hour as u128, 2);
        out.append(":");
        push_padded(&mut out, self.minute as u128, 2);
        out.append(":");
        push_padded(&mut out, self.second as u128, 2);
        assert(out@ =~= timestamp_text(self@));
        out
    }
}

} // verus!
