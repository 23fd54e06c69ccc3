//! Parsing one returned HTML results page into booking records.
//!
//! A page either carries the upstream template's literal "no hits"
//! sentinel (an empty result, not an error), or holds a results table
//! whose body rows each yield ten cells: `(id, resource, user, _,
//! start, _, end, _, _, description)`. Rows with fewer than ten cells
//! are skipped; a malformed timestamp in a complete row aborts the whole
//! page. The HTML itself is taken apart by the `scraper` crate behind a
//! trusted wrapper; everything after that — grouping, skipping,
//! timestamp parsing — is verified here.

use vstd::prelude::*;
use crate::datetime::{instant_of, stamp_of, to_datetime};
use crate::model::{Booking, BookingV, ParseError};

verus! {

/// Listing progress as the upstream reports it: records `from` to `to`
/// of `total`. Its absence, or `to >= total`, means the listing is
/// exhausted.
#[derive(Clone, Copy, Debug, PartialEq, Eq, Structural)]
pub struct Paging {
    pub from: usize,
    pub to: usize,
    pub total: usize,
}

/// One parsed results page: the booking records in document order, and
/// the pagination cursor when the page reports one.
#[derive(Debug)]
pub struct ListResponse {
    pub paging: Option<Paging>,
    pub bookings: Vec<Booking>,
}

/// Whether `needle` occurs as a contiguous substring of `hay`.
pub open spec fn has_substring(hay: Seq<char>, needle: Seq<char>) -> bool {
    exists|i: int|
        0 <= i <= hay.len() - needle.len() && #[trigger] hay.subrange(i, i + needle.len())
            == needle
}

/// Relies on str::contains: true exactly when the pattern occurs as a
/// substring.
#[verifier::external_body]
fn contains_marker(body: &str, marker: &str) -> (r: bool)
    ensures
        r == has_substring(body@, marker@),
{
    body.contains(marker)
}

/// The rows of text cells that scraper's HTML parsing and CSS selection
/// produce for a document and a pair of selectors: for each element the
/// row selector matches, in document order, the concatenated text of
/// each element the cell selector matches within it. `None` exactly when
/// one of the selectors does not compile.
pub uninterp spec fn table_rows_of(
    body: Seq<char>,
    row_selector: Seq<char>,
    cell_selector: Seq<char>,
) -> Option<Seq<Seq<Seq<char>>>>;

/// Relies on scraper's `Html::parse_document`, `Selector::parse` and
/// `select`: extracts the text cells of every selected row. The result
/// depends on the document and the two selectors alone.
#[verifier::external_body]
fn extract_table_rows(body: &str, row_selector: &str, cell_selector: &str) -> (r: Option<
    Vec<Vec<String>>,
>)
    ensures
        r is Some <==> table_rows_of(body@, row_selector@, cell_selector@) is Some,
        r matches Some(rows) ==> rows.deep_view() == table_rows_of(
            body@,
            row_selector@,
            cell_selector@,
        )->Some_0,
{
    let row_sel = scraper::Selector::parse(row_selector).ok()?;
    let cell_sel = scraper::Selector::parse(cell_selector).ok()?;
    let html = scraper::Html::parse_document(body);
    let mut rows = Vec::new();
    for row in html.select(&row_sel) {
        let mut cells = Vec::new();
        for cell in row.select(&cell_sel) {
            cells.push(cell.text().collect::<String>());
        }
        rows.push(cells);
    }
    Some(rows)
}

/// What parsing one timestamp cell yields: the instant, or the error
/// that aborts the page.
pub open spec fn cell_instant(s: Seq<char>) -> Result<int, ParseError> {
    if instant_of(s) is Some {
        Ok(instant_of(s)->Some_0)
    } else if stamp_of(s) is None {
        Err(ParseError::InvalidTimestamp)
    } else {
        Err(ParseError::NonexistentLocalTime)
    }
}

/// The booking a complete row of at least ten cells yields: fields taken
/// positionally as `(id, resource, user, _, start, _, end, _, _,
/// description)`, with no location yet.
pub open spec fn booking_of_row(row: Seq<Seq<char>>) -> Result<BookingV, ParseError>
    recommends
        row.len() >= 10,
{
    match cell_instant(row[4]) {
        Err(e) => Err(e),
        Ok(start) => match cell_instant(row[6]) {
            Err(e) => Err(e),
            Ok(end) => Ok(
                BookingV {
                    id: row[0],
                    resource: row[1],
                    user: row[2],
                    start,
                    end,
                    description: row[9],
                    location: None,
                },
            ),
        },
    }
}

/// The bookings the rows from index `i` on yield: rows with fewer than
/// ten cells are skipped, and the first complete row with a malformed
/// timestamp aborts with its error.
pub open spec fn bookings_from(rows: Seq<Seq<Seq<char>>>, i: int) -> Result<
    Seq<BookingV>,
    ParseError,
>
    decreases rows.len() - i,
{
    if i < 0 || i >= rows.len() {
        Ok(Seq::empty())
    } else if rows[i].len() < 10 {
        bookings_from(rows, i + 1)
    } else {
        match booking_of_row(rows[i]) {
            Err(e) => Err(e),
            Ok(b) => match bookings_from(rows, i + 1) {
                Err(e) => Err(e),
                Ok(s) => Ok(seq![b] + s),
            },
        }
    }
}

/// The bookings a full set of rows yields.
pub open spec fn bookings_of(rows: Seq<Seq<Seq<char>>>) -> Result<Seq<BookingV>, ParseError> {
    bookings_from(rows, 0)
}

/// Turn the extracted rows of text cells into booking records: skip
/// every row with fewer than ten cells, map each complete row's cells
/// positionally, and abort the whole page on the first complete row
/// whose start or end timestamp does not parse.
pub fn rows_to_bookings(rows: &Vec<Vec<String>>) -> (r: Result<Vec<Booking>, ParseError>)
    ensures
        r is Ok <==> bookings_of(rows.deep_view()) is Ok,
        r matches Ok(bs) ==> bs.deep_view() == bookings_of(rows.deep_view())->Ok_0,
        r matches Err(e) ==> bookings_of(rows.deep_view()) == Err::<Seq<BookingV>, ParseError>(e),
{
    let ghost dv = rows.deep_view();
    let mut out: Vec<Booking> = Vec::new();
    let mut i: usize = 0;
    while i < rows.len()
        invariant
            i <= rows.len(),
            dv == rows.deep_view(),
            dv.len() == rows.len(),
            bookings_from(dv, 0) == (match bookings_from(dv, i as int) {
                Ok(s) => Ok::<Seq<BookingV>, ParseError>(out.deep_view() + s),
                Err(e) => Err::<Seq<BookingV>, ParseError>(e),
            }),
        decreases rows.len() - i,
    {
        let row = &rows[i];
        proof {
            assert(dv[i as int] == row.deep_view());
        }
        if row.len() >= 10 {
            let start = match to_datetime(row[4].as_str()) {
                Ok(t) => t,
                Err(e) => {
                    proof {
                        assert(dv[i as int][4] == row[4]@);
                    }
                    return Err(e);
                },
            };
            let end = match to_datetime(row[6].as_str()) {
                Ok(t) => t,
                Err(e) => {
                    proof {
                        assert(dv[i as int][6] == row[6]@);
                    }
                    return Err(e);
                },
            };
            let b = Booking {
                id: row[0].clone(),
                resource: row[1].clone(),
                user: row[2].clone(),
                start,
                end,
                description: row[9].clone(),
                location: None,
            };
            proof {
                assert(dv[i as int][0] == row[0]@);
                assert(dv[i as int][1] == row[1]@);
                assert(dv[i as int][2] == row[2]@);
                assert(dv[i as int][4] == row[4]@);
                assert(dv[i as int][6] == row[6]@);
                assert(dv[i as int][9] == row[9]@);
                assert(booking_of_row(dv[i as int]) == Ok::<BookingV, ParseError>(b@));
            }
            let ghost pre = out.deep_view();
            out.push(b);
            proof {
                assert(out.deep_view() =~= pre.push(b@));
                if bookings_from(dv, i as int + 1) is Ok {
                    assert(out.deep_view() + bookings_from(dv, i as int + 1)->Ok_0 =~= pre + (
                    seq![b@] + bookings_from(dv, i as int + 1)->Ok_0));
                }
            }
        }
        i += 1;
    }
    proof {
        assert(bookings_from(dv, i as int) == Ok::<Seq<BookingV>, ParseError>(Seq::empty()));
        assert(out.deep_view() + Seq::<BookingV>::empty() =~= out.deep_view());
    }
    Ok(out)
}

/// What parsing one page body yields: an empty result on the "no hits"
/// sentinel; otherwise the bookings of the extracted table rows, and no
/// pagination cursor (no observed page reports one). Errors: a selector
/// that does not compile, or a malformed timestamp in a complete row.
pub open spec fn spec_parse_query(body: Seq<char>) -> Result<
    (Option<Paging>, Seq<BookingV>),
    ParseError,
> {
    if has_substring(body, "<B>Die Suche ergab keine Treffer!</B>"@) {
        Ok((None, Seq::empty()))
    } else {
        match table_rows_of(
            body,
            "#pageBody table[bordercolor=\"#000000\"] tbody tr"@,
            "td"@,
        ) {
            None => Err(ParseError::InvalidSelector),
            Some(rows) => match bookings_of(rows) {
                Err(e) => Err(e),
                Ok(bs) => Ok((None, bs)),
            },
        }
    }
}

/// Parse one page body. A body holding the "no hits" sentinel is an
/// empty result, never an error; otherwise the results table's rows are
/// extracted and turned into bookings. No observed page shape carries a
/// pagination cursor, so `paging` is always `None`; the engine treats
/// that as "no further page".
pub fn parse_query(body: &str) -> (r: Result<ListResponse, ParseError>)
    ensures
        r is Ok <==> spec_parse_query(body@) is Ok,
        r matches Ok(resp) ==> ({
            let t = spec_parse_query(body@)->Ok_0;
            resp.paging == t.0 && resp.bookings.deep_view() == t.1
        }),
        r matches Err(e) ==> spec_parse_query(body@) == Err::<
            (Option<Paging>, Seq<BookingV>),
            ParseError,
        >(e),
        has_substring(body@, "<B>Die Suche ergab keine Treffer!</B>"@) ==> (r matches Ok(resp)
            && resp.paging is None && resp.bookings@.len() == 0),
{
    if contains_marker(body, "<B>Die Suche ergab keine Treffer!</B>") {
        return Ok(ListResponse { paging: None, bookings: Vec::new() });
    }
    let rows = match extract_table_rows(
        body,
        "#pageBody table[bordercolor=\"#000000\"] tbody tr",
        "td",
    ) {
        Some(rows) => rows,
        None => {
            return Err(ParseError::InvalidSelector);
        },
    };
    match rows_to_bookings(&rows) {
        Ok(bookings) => Ok(ListResponse { paging: None, bookings }),
        Err(e) => Err(e),
    }
}

} // verus!
