//! Building the exact query-parameter list the booking system's search
//! endpoint expects, from credentials, a result offset and a filter
//! specification.

use vstd::prelude::*;
use crate::model::{BookingState, Credentials, Date, ListOptions};

verus! {

/// The character for one decimal digit.
pub open spec fn dec_digit(d: int) -> char {
    if d == 0 {
        '0'
    } else if d == 1 {
        '1'
    } else if d == 2 {
        '2'
    } else if d == 3 {
        '3'
    } else if d == 4 {
        '4'
    } else if d == 5 {
        '5'
    } else if d == 6 {
        '6'
    } else if d == 7 {
        '7'
    } else if d == 8 {
        '8'
    } else {
        '9'
    }
}

/// The unpadded decimal rendering of a natural number.
pub open spec fn dec_of(n: nat) -> Seq<char>
    decreases n,
{
    if n < 10 {
        seq![dec_digit(n as int)]
    } else {
        dec_of(n / 10) + seq![dec_digit((n % 10) as int)]
    }
}

/// The one-character string for one decimal digit.
fn digit_str(d: u64) -> (r: &'static str)
    requires
        d < 10,
    ensures
        r@ == seq![dec_digit(d as int)],
{
    let r: &'static str = match d {
        0 => "0",
        1 => "1",
        2 => "2",
        3 => "3",
        4 => "4",
        5 => "5",
        6 => "6",
        7 => "7",
        8 => "8",
        _ => "9",
    };
    proof {
        reveal_strlit("0");
        reveal_strlit("1");
        reveal_strlit("2");
        reveal_strlit("3");
        reveal_strlit("4");
        reveal_strlit("5");
        reveal_strlit("6");
        reveal_strlit("7");
        reveal_strlit("8");
        reveal_strlit("9");
        assert(r@ =~= seq![dec_digit(d as int)]);
    }
    r
}

/// Render a number as its unpadded decimal string.
pub fn u64_to_string(n: u64) -> (r: String)
    ensures
        r@ == dec_of(n as nat),
    decreases n,
{
    if n < 10 {
        String::from_str(digit_str(n))
    } else {
        let mut s = u64_to_string(n / 10);
        s.append(digit_str(n % 10));
        s
    }
}

/// The date-range encoding for one bound: a presence flag `1` plus the
/// unpadded day/month/year fields when the bound is given, the presence
/// flag `0` alone when it is not.
pub open spec fn spec_date_filter(prefix: Seq<char>, date: Option<Date>) -> Seq<
    (Seq<char>, Seq<char>),
> {
    match date {
        Some(d) => seq![
            (prefix, "1"@),
            (prefix + "_day"@, dec_of(d.day as nat)),
            (prefix + "_month"@, dec_of(d.month as nat)),
            (prefix + "_year"@, dec_of(d.year as nat)),
        ],
        None => seq![(prefix, "0"@)],
    }
}

/// Emit the four-field date-range encoding for one bound.
pub fn date_filter_to_query(prefix: &str, date: Option<Date>) -> (q: Vec<(String, String)>)
    ensures
        q.deep_view() == spec_date_filter(prefix@, date),
{
    let mut q: Vec<(String, String)> = Vec::new();
    match date {
        Some(d) => {
            q.push((String::from_str(prefix), String::from_str("1")));
            let mut day_key = String::from_str(prefix);
            day_key.append("_day");
            q.push((day_key, u64_to_string(d.day as u64)));
            let mut month_key = String::from_str(prefix);
            month_key.append("_month");
            q.push((month_key, u64_to_string(d.month as u64)));
            let mut year_key = String::from_str(prefix);
            year_key.append("_year");
            q.push((year_key, u64_to_string(d.year as u64)));
            proof {
                assert(q.deep_view() =~= spec_date_filter(prefix@, date));
            }
        },
        None => {
            q.push((String::from_str(prefix), String::from_str("0")));
            proof {
                assert(q.deep_view() =~= spec_date_filter(prefix@, date));
            }
        },
    }
    q
}

/// The state parameters: `active=on`, `inactive=on`, or both.
pub open spec fn spec_state_params(state: BookingState) -> Seq<(Seq<char>, Seq<char>)> {
    match state {
        BookingState::Active => seq![("active"@, "on"@)],
        BookingState::Inactive => seq![("inactive"@, "on"@)],
        BookingState::All => seq![("active"@, "on"@), ("inactive"@, "on"@)],
    }
}

/// The five fixed parameters that open every search request.
pub open spec fn spec_fixed_params(
    credentials: Credentials,
    offset: nat,
    options: ListOptions,
) -> Seq<(Seq<char>, Seq<char>)> {
    seq![
        ("club"@, credentials.club@),
        ("search_pos"@, dec_of(offset)),
        ("sel_room"@, "all"@),
        ("sel_booker"@, "all"@),
        (
            "sel_owner"@,
            match options.owner {
                Some(o) => o@,
                None => "all"@,
            },
        ),
    ]
}

/// The full ordered query-parameter list for one page request.
pub open spec fn spec_query(credentials: Credentials, offset: nat, options: ListOptions) -> Seq<
    (Seq<char>, Seq<char>),
> {
    spec_fixed_params(credentials, offset, options) + spec_state_params(options.state)
        + spec_date_filter("s_from"@, options.start_from) + spec_date_filter(
        "s_to"@,
        options.start_to,
    ) + spec_date_filter("e_from"@, options.end_from) + spec_date_filter("e_to"@, options.end_to)
}

/// Build the full ordered query-parameter list for one page request:
/// the five fixed parameters, then the state flags, then the four
/// date-range encodings.
pub fn build_query(credentials: &Credentials, offset: usize, options: &ListOptions) -> (q: Vec<
    (String, String),
>)
    ensures
        q.deep_view() == spec_query(*credentials, offset as nat, *options),
{
    let mut q: Vec<(String, String)> = Vec::new();
    q.push((String::from_str("club"), credentials.club.clone()));
    q.push((String::from_str("search_pos"), u64_to_string(offset as u64)));
    q.push((String::from_str("sel_room"), String::from_str("all")));
    q.push((String::from_str("sel_booker"), String::from_str("all")));
    let owner = match &options.owner {
        Some(o) => o.clone(),
        None => String::from_str("all"),
    };
    q.push((String::from_str("sel_owner"), owner));
    match options.state {
        BookingState::Active => {
            q.push((String::from_str("active"), String::from_str("on")));
        },
        BookingState::Inactive => {
            q.push((String::from_str("inactive"), String::from_str("on")));
        },
        BookingState::All => {
            q.push((String::from_str("active"), String::from_str("on")));
            q.push((String::from_str("inactive"), String::from_str("on")));
        },
    }
    let mut s_from = date_filter_to_query("s_from", options.start_from);
    q.append(&mut s_from);
    let mut s_to = date_filter_to_query("s_to", options.start_to);
    q.append(&mut s_to);
    let mut e_from = date_filter_to_query("e_from", options.end_from);
    q.append(&mut e_from);
    let mut e_to = date_filter_to_query("e_to", options.end_to);
    q.append(&mut e_to);
    proof {
        assert(q.deep_view() =~= spec_query(*credentials, offset as nat, *options));
    }
    q
}

/// The query-parameter keys are pairwise distinct wherever the laws
/// below need to tell them apart.
proof fn lemma_distinct_keys()
    ensures
        "active"@ != "inactive"@,
        "club"@ != "active"@,
        "club"@ != "e_from"@ + "_day"@,
        "club"@ != "e_from"@ + "_month"@,
        "club"@ != "e_from"@ + "_year"@,
        "club"@ != "e_to"@ + "_day"@,
        "club"@ != "e_to"@ + "_month"@,
        "club"@ != "e_to"@ + "_year"@,
        "club"@ != "inactive"@,
        "club"@ != "s_from"@ + "_day"@,
        "club"@ != "s_from"@ + "_month"@,
        "club"@ != "s_from"@ + "_year"@,
        "club"@ != "s_to"@ + "_day"@,
        "club"@ != "s_to"@ + "_month"@,
        "club"@ != "s_to"@ + "_year"@,
        "e_from"@ != "active"@,
        "e_from"@ != "e_from"@ + "_day"@,
        "e_from"@ != "e_from"@ + "_month"@,
        "e_from"@ != "e_from"@ + "_year"@,
        "e_from"@ != "e_to"@ + "_day"@,
        "e_from"@ != "e_to"@ + "_month"@,
        "e_from"@ != "e_to"@ + "_year"@,
        "e_from"@ != "inactive"@,
        "e_from"@ != "s_from"@ + "_day"@,
        "e_from"@ != "s_from"@ + "_month"@,
        "e_from"@ != "s_from"@ + "_year"@,
        "e_from"@ != "s_to"@ + "_day"@,
        "e_from"@ != "s_to"@ + "_month"@,
        "e_from"@ != "s_to"@ + "_year"@,
        "e_from"@ + "_day"@ != "active"@,
        "e_from"@ + "_day"@ != "e_to"@ + "_day"@,
        "e_from"@ + "_day"@ != "e_to"@ + "_month"@,
        "e_from"@ + "_day"@ != "e_to"@ + "_year"@,
        "e_from"@ + "_day"@ != "inactive"@,
        "e_from"@ + "_month"@ != "active"@,
        "e_from"@ + "_month"@ != "e_to"@ + "_day"@,
        "e_from"@ + "_month"@ != "e_to"@ + "_month"@,
        "e_from"@ + "_month"@ != "e_to"@ + "_year"@,
        "e_from"@ + "_month"@ != "inactive"@,
        "e_from"@ + "_year"@ != "active"@,
        "e_from"@ + "_year"@ != "e_to"@ + "_day"@,
        "e_from"@ + "_year"@ != "e_to"@ + "_month"@,
        "e_from"@ + "_year"@ != "e_to"@ + "_year"@,
        "e_from"@ + "_year"@ != "inactive"@,
        "e_to"@ != "active"@,
        "e_to"@ != "e_from"@ + "_day"@,
        "e_to"@ != "e_from"@ + "_month"@,
        "e_to"@ != "e_from"@ + "_year"@,
        "e_to"@ != "e_to"@ + "_day"@,
        "e_to"@ != "e_to"@ + "_month"@,
        "e_to"@ != "e_to"@ + "_year"@,
        "e_to"@ != "inactive"@,
        "e_to"@ != "s_from"@ + "_day"@,
        "e_to"@ != "s_from"@ + "_month"@,
        "e_to"@ != "s_from"@ + "_year"@,
        "e_to"@ != "s_to"@ + "_day"@,
        "e_to"@ != "s_to"@ + "_month"@,
        "e_to"@ != "s_to"@ + "_year"@,
        "e_to"@ + "_day"@ != "active"@,
        "e_to"@ + "_day"@ != "inactive"@,
        "e_to"@ + "_month"@ != "active"@,
        "e_to"@ + "_month"@ != "inactive"@,
        "e_to"@ + "_year"@ != "active"@,
        "e_to"@ + "_year"@ != "inactive"@,
        "s_from"@ != "active"@,
        "s_from"@ != "e_from"@ + "_day"@,
        "s_from"@ != "e_from"@ + "_month"@,
        "s_from"@ != "e_from"@ + "_year"@,
        "s_from"@ != "e_to"@ + "_day"@,
        "s_from"@ != "e_to"@ + "_month"@,
        "s_from"@ != "e_to"@ + "_year"@,
        "s_from"@ != "inactive"@,
        "s_from"@ != "s_from"@ + "_day"@,
        "s_from"@ != "s_from"@ + "_month"@,
        "s_from"@ != "s_from"@ + "_year"@,
        "s_from"@ != "s_to"@ + "_day"@,
        "s_from"@ != "s_to"@ + "_month"@,
        "s_from"@ != "s_to"@ + "_year"@,
        "s_from"@ + "_day"@ != "active"@,
        "s_from"@ + "_day"@ != "e_from"@ + "_day"@,
        "s_from"@ + "_day"@ != "e_from"@ + "_month"@,
        "s_from"@ + "_day"@ != "e_from"@ + "_year"@,
        "s_from"@ + "_day"@ != "e_to"@ + "_day"@,
        "s_from"@ + "_day"@ != "e_to"@ + "_month"@,
        "s_from"@ + "_day"@ != "e_to"@ + "_year"@,
        "s_from"@ + "_day"@ != "inactive"@,
        "s_from"@ + "_day"@ != "s_to"@ + "_day"@,
        "s_from"@ + "_day"@ != "s_to"@ + "_month"@,
        "s_from"@ + "_day"@ != "s_to"@ + "_year"@,
        "s_from"@ + "_month"@ != "active"@,
        "s_from"@ + "_month"@ != "e_from"@ + "_day"@,
        "s_from"@ + "_month"@ != "e_from"@ + "_month"@,
        "s_from"@ + "_month"@ != "e_from"@ + "_year"@,
        "s_from"@ + "_month"@ != "e_to"@ + "_day"@,
        "s_from"@ + "_month"@ != "e_to"@ + "_month"@,
        "s_from"@ + "_month"@ != "e_to"@ + "_year"@,
        "s_from"@ + "_month"@ != "inactive"@,
        "s_from"@ + "_month"@ != "s_to"@ + "_day"@,
        "s_from"@ + "_month"@ != "s_to"@ + "_month"@,
        "s_from"@ + "_month"@ != "s_to"@ + "_year"@,
        "s_from"@ + "_year"@ != "active"@,
        "s_from"@ + "_year"@ != "e_from"@ + "_day"@,
        "s_from"@ + "_year"@ != "e_from"@ + "_month"@,
        "s_from"@ + "_year"@ != "e_from"@ + "_year"@,
        "s_from"@ + "_year"@ != "e_to"@ + "_day"@,
        "s_from"@ + "_year"@ != "e_to"@ + "_month"@,
        "s_from"@ + "_year"@ != "e_to"@ + "_year"@,
        "s_from"@ + "_year"@ != "inactive"@,
        "s_from"@ + "_year"@ != "s_to"@ + "_day"@,
        "s_from"@ + "_year"@ != "s_to"@ + "_month"@,
        "s_from"@ + "_year"@ != "s_to"@ + "_year"@,
        "s_to"@ != "active"@,
        "s_to"@ != "e_from"@ + "_day"@,
        "s_to"@ != "e_from"@ + "_month"@,
        "s_to"@ != "e_from"@ + "_year"@,
        "s_to"@ != "e_to"@ + "_day"@,
        "s_to"@ != "e_to"@ + "_month"@,
        "s_to"@ != "e_to"@ + "_year"@,
        "s_to"@ != "inactive"@,
        "s_to"@ != "s_from"@ + "_day"@,
        "s_to"@ != "s_from"@ + "_month"@,
        "s_to"@ != "s_from"@ + "_year"@,
        "s_to"@ != "s_to"@ + "_day"@,
        "s_to"@ != "s_to"@ + "_month"@,
        "s_to"@ != "s_to"@ + "_year"@,
        "s_to"@ + "_day"@ != "active"@,
        "s_to"@ + "_day"@ != "e_from"@ + "_day"@,
        "s_to"@ + "_day"@ != "e_from"@ + "_month"@,
        "s_to"@ + "_day"@ != "e_from"@ + "_year"@,
        "s_to"@ + "_day"@ != "e_to"@ + "_day"@,
        "s_to"@ + "_day"@ != "e_to"@ + "_month"@,
        "s_to"@ + "_day"@ != "e_to"@ + "_year"@,
        "s_to"@ + "_day"@ != "inactive"@,
        "s_to"@ + "_month"@ != "active"@,
        "s_to"@ + "_month"@ != "e_from"@ + "_day"@,
        "s_to"@ + "_month"@ != "e_from"@ + "_month"@,
        "s_to"@ + "_month"@ != "e_from"@ + "_year"@,
        "s_to"@ + "_month"@ != "e_to"@ + "_day"@,
        "s_to"@ + "_month"@ != "e_to"@ + "_month"@,
        "s_to"@ + "_month"@ != "e_to"@ + "_year"@,
        "s_to"@ + "_month"@ != "inactive"@,
        "s_to"@ + "_year"@ != "active"@,
        "s_to"@ + "_year"@ != "e_from"@ + "_day"@,
        "s_to"@ + "_year"@ != "e_from"@ + "_month"@,
        "s_to"@ + "_year"@ != "e_from"@ + "_year"@,
        "s_to"@ + "_year"@ != "e_to"@ + "_day"@,
        "s_to"@ + "_year"@ != "e_to"@ + "_month"@,
        "s_to"@ + "_year"@ != "e_to"@ + "_year"@,
        "s_to"@ + "_year"@ != "inactive"@,
        "search_pos"@ != "active"@,
        "search_pos"@ != "e_from"@ + "_day"@,
        "search_pos"@ != "e_from"@ + "_month"@,
        "search_pos"@ != "e_from"@ + "_year"@,
        "search_pos"@ != "e_to"@ + "_day"@,
        "search_pos"@ != "e_to"@ + "_month"@,
        "search_pos"@ != "e_to"@ + "_year"@,
        "search_pos"@ != "inactive"@,
        "search_pos"@ != "s_from"@ + "_day"@,
        "search_pos"@ != "s_from"@ + "_month"@,
        "search_pos"@ != "s_from"@ + "_year"@,
        "search_pos"@ != "s_to"@ + "_day"@,
        "search_pos"@ != "s_to"@ + "_month"@,
        "search_pos"@ != "s_to"@ + "_year"@,
        "sel_booker"@ != "active"@,
        "sel_booker"@ != "e_from"@ + "_day"@,
        "sel_booker"@ != "e_from"@ + "_month"@,
        "sel_booker"@ != "e_from"@ + "_year"@,
        "sel_booker"@ != "e_to"@ + "_day"@,
        "sel_booker"@ != "e_to"@ + "_month"@,
        "sel_booker"@ != "e_to"@ + "_year"@,
        "sel_booker"@ != "inactive"@,
        "sel_booker"@ != "s_from"@ + "_day"@,
        "sel_booker"@ != "s_from"@ + "_month"@,
        "sel_booker"@ != "s_from"@ + "_year"@,
        "sel_booker"@ != "s_to"@ + "_day"@,
        "sel_booker"@ != "s_to"@ + "_month"@,
        "sel_booker"@ != "s_to"@ + "_year"@,
        "sel_owner"@ != "active"@,
        "sel_owner"@ != "e_from"@ + "_day"@,
        "sel_owner"@ != "e_from"@ + "_month"@,
        "sel_owner"@ != "e_from"@ + "_year"@,
        "sel_owner"@ != "e_to"@ + "_day"@,
        "sel_owner"@ != "e_to"@ + "_month"@,
        "sel_owner"@ != "e_to"@ + "_year"@,
        "sel_owner"@ != "inactive"@,
        "sel_owner"@ != "s_from"@ + "_day"@,
        "sel_owner"@ != "s_from"@ + "_month"@,
        "sel_owner"@ != "s_from"@ + "_year"@,
        "sel_owner"@ != "s_to"@ + "_day"@,
        "sel_owner"@ != "s_to"@ + "_month"@,
        "sel_owner"@ != "s_to"@ + "_year"@,
        "sel_room"@ != "active"@,
        "sel_room"@ != "e_from"@ + "_day"@,
        "sel_room"@ != "e_from"@ + "_month"@,
        "sel_room"@ != "e_from"@ + "_year"@,
        "sel_room"@ != "e_to"@ + "_day"@,
        "sel_room"@ != "e_to"@ + "_month"@,
        "sel_room"@ != "e_to"@ + "_year"@,
        "sel_room"@ != "inactive"@,
        "sel_room"@ != "s_from"@ + "_day"@,
        "sel_room"@ != "s_from"@ + "_month"@,
        "sel_room"@ != "s_from"@ + "_year"@,
        "sel_room"@ != "s_to"@ + "_day"@,
        "sel_room"@ != "s_to"@ + "_month"@,
        "sel_room"@ != "s_to"@ + "_year"@,
{
    reveal_strlit("club");
    reveal_strlit("search_pos");
    reveal_strlit("sel_room");
    reveal_strlit("sel_booker");
    reveal_strlit("sel_owner");
    reveal_strlit("active");
    reveal_strlit("inactive");
    reveal_strlit("s_from");
    reveal_strlit("s_to");
    reveal_strlit("e_from");
    reveal_strlit("e_to");
    reveal_strlit("_day");
    reveal_strlit("_month");
    reveal_strlit("_year");
    assert("club"@.len() == 4);
    assert("search_pos"@.len() == 10);
    assert("sel_room"@.len() == 8);
    assert("sel_booker"@.len() == 10);
    assert("sel_owner"@.len() == 9);
    assert("active"@.len() == 6);
    assert("inactive"@.len() == 8);
    assert("s_from"@.len() == 6);
    assert("s_to"@.len() == 4);
    assert("e_from"@.len() == 6);
    assert("e_to"@.len() == 4);
    assert("_day"@.len() == 4);
    assert("_month"@.len() == 6);
    assert("_year"@.len() == 5);
    assert("club"@[0] == 'c');
    assert("club"@[1] == 'l');
    assert("club"@[2] == 'u');
    assert("search_pos"@[0] == 's');
    assert("search_pos"@[1] == 'e');
    assert("search_pos"@[2] == 'a');
    assert("sel_room"@[0] == 's');
    assert("sel_room"@[1] == 'e');
    assert("sel_room"@[2] == 'l');
    assert("sel_booker"@[0] == 's');
    assert("sel_booker"@[1] == 'e');
    assert("sel_booker"@[2] == 'l');
    assert("sel_owner"@[0] == 's');
    assert("sel_owner"@[1] == 'e');
    assert("sel_owner"@[2] == 'l');
    assert("active"@[0] == 'a');
    assert("active"@[1] == 'c');
    assert("active"@[2] == 't');
    assert("inactive"@[0] == 'i');
    assert("inactive"@[1] == 'n');
    assert("inactive"@[2] == 'a');
    assert("s_from"@[0] == 's');
    assert("s_from"@[1] == '_');
    assert("s_from"@[2] == 'f');
    assert("s_to"@[0] == 's');
    assert("s_to"@[1] == '_');
    assert("s_to"@[2] == 't');
    assert("e_from"@[0] == 'e');
    assert("e_from"@[1] == '_');
    assert("e_from"@[2] == 'f');
    assert("e_to"@[0] == 'e');
    assert("e_to"@[1] == '_');
    assert("e_to"@[2] == 't');
    assert("_day"@[0] == '_');
    assert("_day"@[1] == 'd');
    assert("_day"@[2] == 'a');
    assert("_month"@[0] == '_');
    assert("_month"@[1] == 'm');
    assert("_month"@[2] == 'o');
    assert("_year"@[0] == '_');
    assert("_year"@[1] == 'y');
    assert("_year"@[2] == 'e');
    assert(("s_from"@ + "_day"@).len() == 10);
    assert(("s_from"@ + "_day"@)[0] == 's');
    assert(("s_from"@ + "_day"@)[1] == '_');
    assert(("s_from"@ + "_day"@)[2] == 'f');
    assert(("s_from"@ + "_month"@).len() == 12);
    assert(("s_from"@ + "_month"@)[0] == 's');
    assert(("s_from"@ + "_month"@)[1] == '_');
    assert(("s_from"@ + "_month"@)[2] == 'f');
    assert(("s_from"@ + "_year"@).len() == 11);
    assert(("s_from"@ + "_year"@)[0] == 's');
    assert(("s_from"@ + "_year"@)[1] == '_');
    assert(("s_from"@ + "_year"@)[2] == 'f');
    assert(("s_to"@ + "_day"@).len() == 8);
    assert(("s_to"@ + "_day"@)[0] == 's');
    assert(("s_to"@ + "_day"@)[1] == '_');
    assert(("s_to"@ + "_day"@)[2] == 't');
    assert(("s_to"@ + "_month"@).len() == 10);
    assert(("s_to"@ + "_month"@)[0] == 's');
    assert(("s_to"@ + "_month"@)[1] == '_');
    assert(("s_to"@ + "_month"@)[2] == 't');
    assert(("s_to"@ + "_year"@).len() == 9);
    assert(("s_to"@ + "_year"@)[0] == 's');
    assert(("s_to"@ + "_year"@)[1] == '_');
    assert(("s_to"@ + "_year"@)[2] == 't');
    assert(("e_from"@ + "_day"@).len() == 10);
    assert(("e_from"@ + "_day"@)[0] == 'e');
    assert(("e_from"@ + "_day"@)[1] == '_');
    assert(("e_from"@ + "_day"@)[2] == 'f');
    assert(("e_from"@ + "_month"@).len() == 12);
    assert(("e_from"@ + "_month"@)[0] == 'e');
    assert(("e_from"@ + "_month"@)[1] == '_');
    assert(("e_from"@ + "_month"@)[2] == 'f');
    assert(("e_from"@ + "_year"@).len() == 11);
    assert(("e_from"@ + "_year"@)[0] == 'e');
    assert(("e_from"@ + "_year"@)[1] == '_');
    assert(("e_from"@ + "_year"@)[2] == 'f');
    assert(("e_to"@ + "_day"@).len() == 8);
    assert(("e_to"@ + "_day"@)[0] == 'e');
    assert(("e_to"@ + "_day"@)[1] == '_');
    assert(("e_to"@ + "_day"@)[2] == 't');
    assert(("e_to"@ + "_month"@).len() == 10);
    assert(("e_to"@ + "_month"@)[0] == 'e');
    assert(("e_to"@ + "_month"@)[1] == '_');
    assert(("e_to"@ + "_month"@)[2] == 't');
    assert(("e_to"@ + "_year"@).len() == 9);
    assert(("e_to"@ + "_year"@)[0] == 'e');
    assert(("e_to"@ + "_year"@)[1] == '_');
    assert(("e_to"@ + "_year"@)[2] == 't');
}

/// Law: the emitted query holds `active=on` exactly for the `Active` and
/// `All` states, and `inactive=on` exactly for `Inactive` and `All`; under
/// `All` both are present at once.
pub proof fn lemma_state_flags(credentials: Credentials, offset: nat, options: ListOptions)
    ensures
        spec_query(credentials, offset, options).contains(("active"@, "on"@)) <==> (options.state
            is Active || options.state is All),
        spec_query(credentials, offset, options).contains(("inactive"@, "on"@)) <==> (options.state
            is Inactive || options.state is All),
{
    let q = spec_query(credentials, offset, options);
    let fixed = spec_fixed_params(credentials, offset, options);
    let st = spec_state_params(options.state);
    let d1 = spec_date_filter("s_from"@, options.start_from);
    let d2 = spec_date_filter("s_to"@, options.start_to);
    let d3 = spec_date_filter("e_from"@, options.end_from);
    let d4 = spec_date_filter("e_to"@, options.end_to);
    lemma_distinct_keys();
    let n0 = fixed.len() as int;
    let n1 = n0 + st.len();
    let n2 = n1 + d1.len();
    let n3 = n2 + d2.len();
    let n4 = n3 + d3.len();
    assert forall|i: int|
        0 <= i < q.len() && (q[i] == ("active"@, "on"@) || q[i] == ("inactive"@, "on"@)) implies n0
        <= i < n1 by {
        if i < n0 {
            assert(q[i] == fixed[i]);
        } else if i < n1 {
        } else if i < n2 {
            assert(q[i] == d1[i - n1]);
        } else if i < n3 {
            assert(q[i] == d2[i - n2]);
        } else if i < n4 {
            assert(q[i] == d3[i - n3]);
        } else {
            assert(q[i] == d4[i - n4]);
        }
    }
    if options.state is Active || options.state is All {
        assert(q[n0] == ("active"@, "on"@));
    }
    if options.state is Inactive {
        assert(q[n0] == ("inactive"@, "on"@));
    }
    if options.state is All {
        assert(q[n0 + 1] == ("inactive"@, "on"@));
    }
}

/// Law: when a date bound is present, the emitted query holds the
/// presence flag `1` for that bound together with its unpadded
/// day/month/year fields.
pub proof fn lemma_date_bounds_present(credentials: Credentials, offset: nat, options: ListOptions)
    ensures
        options.start_from matches Some(d) ==> {
            let q = spec_query(credentials, offset, options);
            &&& q.contains(("s_from"@, "1"@))
            &&& q.contains(("s_from"@ + "_day"@, dec_of(d.day as nat)))
            &&& q.contains(("s_from"@ + "_month"@, dec_of(d.month as nat)))
            &&& q.contains(("s_from"@ + "_year"@, dec_of(d.year as nat)))
        },
        options.start_to matches Some(d) ==> {
            let q = spec_query(credentials, offset, options);
            &&& q.contains(("s_to"@, "1"@))
            &&& q.contains(("s_to"@ + "_day"@, dec_of(d.day as nat)))
            &&& q.contains(("s_to"@ + "_month"@, dec_of(d.month as nat)))
            &&& q.contains(("s_to"@ + "_year"@, dec_of(d.year as nat)))
        },
        options.end_from matches Some(d) ==> {
            let q = spec_query(credentials, offset, options);
            &&& q.contains(("e_from"@, "1"@))
            &&& q.contains(("e_from"@ + "_day"@, dec_of(d.day as nat)))
            &&& q.contains(("e_from"@ + "_month"@, dec_of(d.month as nat)))
            &&& q.contains(("e_from"@ + "_year"@, dec_of(d.year as nat)))
        },
        options.end_to matches Some(d) ==> {
            let q = spec_query(credentials, offset, options);
            &&& q.contains(("e_to"@, "1"@))
            &&& q.contains(("e_to"@ + "_day"@, dec_of(d.day as nat)))
            &&& q.contains(("e_to"@ + "_month"@, dec_of(d.month as nat)))
            &&& q.contains(("e_to"@ + "_year"@, dec_of(d.year as nat)))
        },
{
    let q = spec_query(credentials, offset, options);
    let fixed = spec_fixed_params(credentials, offset, options);
    let st = spec_state_params(options.state);
    let d1 = spec_date_filter("s_from"@, options.start_from);
    let d2 = spec_date_filter("s_to"@, options.start_to);
    let d3 = spec_date_filter("e_from"@, options.end_from);
    let d4 = spec_date_filter("e_to"@, options.end_to);
    let n1 = fixed.len() as int + st.len();
    let n2 = n1 + d1.len();
    let n3 = n2 + d2.len();
    let n4 = n3 + d3.len();
    if options.start_from is Some {
        assert(q[n1] == d1[0]);
        assert(q[n1 + 1] == d1[1]);
        assert(q[n1 + 2] == d1[2]);
        assert(q[n1 + 3] == d1[3]);
    }
    if options.start_to is Some {
        assert(q[n2] == d2[0]);
        assert(q[n2 + 1] == d2[1]);
        assert(q[n2 + 2] == d2[2]);
        assert(q[n2 + 3] == d2[3]);
    }
    if options.end_from is Some {
        assert(q[n3] == d3[0]);
        assert(q[n3 + 1] == d3[1]);
        assert(q[n3 + 2] == d3[2]);
        assert(q[n3 + 3] == d3[3]);
    }
    if options.end_to is Some {
        assert(q[n4] == d4[0]);
        assert(q[n4 + 1] == d4[1]);
        assert(q[n4 + 2] == d4[2]);
        assert(q[n4 + 3] == d4[3]);
    }
}

/// Law: when a date bound is absent, the emitted query holds the presence
/// flag `0` for that bound and no day/month/year field keyed by it.
pub proof fn lemma_date_bounds_absent(credentials: Credentials, offset: nat, options: ListOptions)
    ensures
        options.start_from is None ==> {
            let q = spec_query(credentials, offset, options);
            &&& q.contains(("s_from"@, "0"@))
            &&& forall|p: (Seq<char>, Seq<char>)|
                q.contains(p) ==> p.0 != "s_from"@ + "_day"@ && p.0 != "s_from"@ + "_month"@ && p.0
                    != "s_from"@ + "_year"@
        },
        options.start_to is None ==> {
            let q = spec_query(credentials, offset, options);
            &&& q.contains(("s_to"@, "0"@))
            &&& forall|p: (Seq<char>, Seq<char>)|
                q.contains(p) ==> p.0 != "s_to"@ + "_day"@ && p.0 != "s_to"@ + "_month"@ && p.0
                    != "s_to"@ + "_year"@
        },
        options.end_from is None ==> {
            let q = spec_query(credentials, offset, options);
            &&& q.contains(("e_from"@, "0"@))
            &&& forall|p: (Seq<char>, Seq<char>)|
                q.contains(p) ==> p.0 != "e_from"@ + "_day"@ && p.0 != "e_from"@ + "_month"@ && p.0
                    != "e_from"@ + "_year"@
        },
        options.end_to is None ==> {
            let q = spec_query(credentials, offset, options);
            &&& q.contains(("e_to"@, "0"@))
            &&& forall|p: (Seq<char>, Seq<char>)|
                q.contains(p) ==> p.0 != "e_to"@ + "_day"@ && p.0 != "e_to"@ + "_month"@ && p.0
                    != "e_to"@ + "_year"@
        },
{
    let q = spec_query(credentials, offset, options);
    let fixed = spec_fixed_params(credentials, offset, options);
    let st = spec_state_params(options.state);
    let d1 = spec_date_filter("s_from"@, options.start_from);
    let d2 = spec_date_filter("s_to"@, options.start_to);
    let d3 = spec_date_filter("e_from"@, options.end_from);
    let d4 = spec_date_filter("e_to"@, options.end_to);
    lemma_distinct_keys();
    let n0 = fixed.len() as int;
    let n1 = n0 + st.len();
    let n2 = n1 + d1.len();
    let n3 = n2 + d2.len();
    let n4 = n3 + d3.len();
    assert forall|p: (Seq<char>, Seq<char>)| q.contains(p) implies {
        &&& (options.start_from is None ==> p.0 != "s_from"@ + "_day"@ && p.0 != "s_from"@
            + "_month"@ && p.0 != "s_from"@ + "_year"@)
        &&& (options.start_to is None ==> p.0 != "s_to"@ + "_day"@ && p.0 != "s_to"@ + "_month"@
            && p.0 != "s_to"@ + "_year"@)
        &&& (options.end_from is None ==> p.0 != "e_from"@ + "_day"@ && p.0 != "e_from"@
            + "_month"@ && p.0 != "e_from"@ + "_year"@)
        &&& (options.end_to is None ==> p.0 != "e_to"@ + "_day"@ && p.0 != "e_to"@ + "_month"@
            && p.0 != "e_to"@ + "_year"@)
    } by {
        let i = choose|i: int| 0 <= i < q.len() && q[i] == p;
        if i < n0 {
            assert(q[i] == fixed[i]);
        } else if i < n1 {
            assert(q[i] == st[i - n0]);
        } else if i < n2 {
            assert(q[i] == d1[i - n1]);
        } else if i < n3 {
            assert(q[i] == d2[i - n2]);
        } else if i < n4 {
            assert(q[i] == d3[i - n3]);
        } else {
            assert(q[i] == d4[i - n4]);
        }
    }
    if options.start_from is None {
        assert(q[n1] == d1[0]);
    }
    if options.start_to is None {
        assert(q[n2] == d2[0]);
    }
    if options.end_from is None {
        assert(q[n3] == d3[0]);
    }
    if options.end_to is None {
        assert(q[n4] == d4[0]);
    }
}

} // verus!
