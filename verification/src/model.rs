//! Value types shared by the whole client: credentials, filter options,
//! calendar dates, booking records and the error taxonomy.

use vstd::prelude::*;
use crate::urls::{UrlParts, UrlPartsV};

verus! {

/// Basic-auth credentials plus the club identifier that every request
/// to the booking system must carry.
#[derive(Debug, PartialEq, Eq)]
pub struct Credentials {
    pub username: String,
    pub password: String,
    pub club: String,
}

impl Clone for Credentials {
    fn clone(&self) -> (r: Self)
        ensures
            r == *self,
    {
        Credentials {
            username: self.username.clone(),
            password: self.password.clone(),
            club: self.club.clone(),
        }
    }
}

/// A calendar date, held as plain year/month/day fields.
#[derive(Clone, Copy, Debug, PartialEq, Eq, Structural)]
pub struct Date {
    pub year: u16,
    pub month: u8,
    pub day: u8,
}

/// Whether a year is a leap year in the proleptic Gregorian calendar.
pub open spec fn is_leap_year(y: int) -> bool {
    (y % 4 == 0 && y % 100 != 0) || y % 400 == 0
}

/// Number of days in a month of a given year.
pub open spec fn days_in_month(y: int, m: int) -> int {
    if m == 2 {
        if is_leap_year(y) {
            29
        } else {
            28
        }
    } else if m == 4 || m == 6 || m == 9 || m == 11 {
        30
    } else {
        31
    }
}

/// Which bookings a listing call asks for: only currently active ones,
/// only inactive ones, or both.
#[derive(Clone, Copy, Debug, PartialEq, Eq, Structural)]
pub enum BookingState {
    Active,
    Inactive,
    All,
}

impl Default for BookingState {
    fn default() -> (r: Self)
        ensures
            r is Active,
    {
        BookingState::Active
    }
}

/// The filter specification for one listing call.
#[derive(Debug)]
pub struct ListOptions {
    pub owner: Option<String>,
    pub start_from: Option<Date>,
    pub start_to: Option<Date>,
    pub end_from: Option<Date>,
    pub end_to: Option<Date>,
    pub state: BookingState,
}

impl Clone for ListOptions {
    fn clone(&self) -> (r: Self)
        ensures
            r == *self,
    {
        ListOptions {
            owner: match &self.owner {
                Some(s) => Some(s.clone()),
                None => None,
            },
            start_from: self.start_from,
            start_to: self.start_to,
            end_from: self.end_from,
            end_to: self.end_to,
            state: self.state,
        }
    }
}

impl Default for ListOptions {
    fn default() -> (r: Self)
        ensures
            r.owner is None,
            r.start_from is None,
            r.start_to is None,
            r.end_from is None,
            r.end_to is None,
            r.state is Active,
    {
        ListOptions {
            owner: None,
            start_from: None,
            start_to: None,
            end_from: None,
            end_to: None,
            state: BookingState::Active,
        }
    }
}

/// Spec-level image of a [`Booking`] value.
pub ghost struct BookingV {
    pub id: Seq<char>,
    pub resource: Seq<char>,
    pub user: Seq<char>,
    pub start: int,
    pub end: int,
    pub description: Seq<char>,
    pub location: Option<UrlPartsV>,
}

/// One booking record scraped from a results page. `start` and `end` are
/// absolute instants, as seconds since the Unix epoch in UTC; `location`
/// stays empty until the record is enriched with its deep link.
#[derive(Debug, PartialEq, Eq)]
pub struct Booking {
    pub id: String,
    pub resource: String,
    pub user: String,
    pub start: i64,
    pub end: i64,
    pub description: String,
    pub location: Option<UrlParts>,
}

impl View for Booking {
    type V = BookingV;

    open spec fn view(&self) -> BookingV {
        BookingV {
            id: self.id@,
            resource: self.resource@,
            user: self.user@,
            start: self.start as int,
            end: self.end as int,
            description: self.description@,
            location: match self.location {
                Some(u) => Some(u@),
                None => None,
            },
        }
    }
}

impl DeepView for Booking {
    type V = BookingV;

    open spec fn deep_view(&self) -> BookingV {
        self.view()
    }
}

impl Clone for Booking {
    fn clone(&self) -> (r: Self)
        ensures
            r@ == self@,
    {
        Booking {
            id: self.id.clone(),
            resource: self.resource.clone(),
            user: self.user.clone(),
            start: self.start,
            end: self.end,
            description: self.description.clone(),
            location: match &self.location {
                Some(u) => Some(u.clone()),
                None => None,
            },
        }
    }
}

impl Booking {
    /// A booking is active at instant `now` exactly when `now` lies
    /// between its start and its end, both inclusive.
    pub fn is_active(&self, now: i64) -> (r: bool)
        ensures
            r == (self.start <= now && now <= self.end),
    {
        self.start <= now && now <= self.end
    }
}

/// Why a page of results could not be turned into booking records.
#[derive(Clone, Copy, Debug, PartialEq, Eq, Structural)]
pub enum ParseError {
    /// A fixed internal selector could not be compiled; never caused by input.
    InvalidSelector,
    /// A timestamp cell did not match the expected `DD.MM.YY, HH:MM` pattern
    /// or named a day that does not exist in the calendar.
    InvalidTimestamp,
    /// A timestamp fell into a daylight-saving gap and names no instant.
    NonexistentLocalTime,
}

impl ParseError {
    /// A short human-readable description of the error.
    pub fn describe(&self) -> &'static str {
        match self {
            ParseError::InvalidSelector => "failed to compile the results-table selector",
            ParseError::InvalidTimestamp => "malformed date/time cell",
            ParseError::NonexistentLocalTime => "date/time falls into a daylight-saving gap",
        }
    }
}

} // verus!
