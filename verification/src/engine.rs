//! The pagination engine: a pull-driven state machine for one listing
//! call. The caller builds the next request URL, fetches it (outside
//! this crate), and feeds the body back; the engine parses it, enriches
//! the records with their deep links, and advances the cursor until the
//! listing is exhausted or a page fails.

use vstd::prelude::*;
use crate::cors::{spec_apply, CorsProxy};
use crate::model::{Booking, BookingV, Credentials, ListOptions, ParseError};
use crate::parser::{parse_query, spec_parse_query, ListResponse, Paging};
use crate::query::{build_query, spec_query};
use crate::urls::{deep_link_of, dir_of, join_dir, make_url, UrlParts, UrlPartsV};

verus! {

/// The scraping client: the frontend base URL the booking system lives
/// under, the relay strategy for outgoing requests, and the credentials
/// sent with every request. Built once; each listing call gets its own
/// [`Listing`].
pub struct Api {
    pub frontend_url: UrlParts,
    pub proxy: CorsProxy,
    pub credentials: Credentials,
}

impl Api {
    /// Build a client from its three configuration values.
    pub fn new(frontend_url: UrlParts, proxy: CorsProxy, credentials: Credentials) -> (a: Api)
        ensures
            a.frontend_url@ == frontend_url@,
            a.proxy@ == proxy@,
            a.credentials == credentials,
    {
        Api { frontend_url, proxy, credentials }
    }

    /// Begin one listing call: a fresh pagination state at offset zero,
    /// holding its own copies of the client's configuration. Listing
    /// calls share no mutable state.
    pub fn list_bookings(&self, options: ListOptions) -> (l: Listing)
        ensures
            l.frontend_url@ == self.frontend_url@,
            l.proxy@ == self.proxy@,
            l.credentials == self.credentials,
            l.options == options,
            l.offset == Some(0usize),
    {
        Listing {
            frontend_url: self.frontend_url.clone(),
            proxy: self.proxy.clone(),
            credentials: self.credentials.clone(),
            options,
            offset: Some(0),
        }
    }
}

/// The offset of the next page: none when the page reports no cursor,
/// or when the cursor is exhausted (`to >= total`); otherwise the
/// cursor's `to`.
pub open spec fn spec_next_offset(paging: Option<Paging>) -> Option<usize> {
    match paging {
        None => None,
        Some(p) => if p.to >= p.total {
            None
        } else {
            Some(p.to)
        },
    }
}

/// Advance the pagination cursor by one parsed page.
pub fn next_offset(paging: Option<Paging>) -> (r: Option<usize>)
    ensures
        r == spec_next_offset(paging),
{
    match paging {
        None => None,
        Some(p) => if p.to >= p.total {
            None
        } else {
            Some(p.to)
        },
    }
}

/// The search URL for one page: the `search.php` endpoint beside the
/// frontend base's path, carrying the full query-parameter list.
pub open spec fn spec_search_url(
    base: UrlPartsV,
    credentials: Credentials,
    offset: nat,
    options: ListOptions,
) -> UrlPartsV {
    UrlPartsV {
        scheme: base.scheme,
        host: base.host,
        path: dir_of(base.path) + "search.php"@,
        query: spec_query(credentials, offset, options),
    }
}

/// A booking enriched with its deep link into the booking system's own
/// viewer, built from the frontend base itself, never the relay.
pub open spec fn enriched(b: BookingV, base: UrlPartsV, club: Seq<char>) -> BookingV {
    BookingV { location: Some(deep_link_of(base, club, b.id)), ..b }
}

/// One listing call's state: its own copies of the client configuration
/// plus the pagination offset. `offset` is `Some(0)` initially and
/// `None` once the listing is exhausted or a page has failed.
pub struct Listing {
    pub frontend_url: UrlParts,
    pub proxy: CorsProxy,
    pub credentials: Credentials,
    pub options: ListOptions,
    pub offset: Option<usize>,
}

impl Listing {
    /// The URL to fetch next: the search URL for the current offset,
    /// routed through the relay strategy. `None` once the listing is
    /// finished — no further fetch may be made.
    pub fn next_url(&self) -> (r: Option<UrlParts>)
        ensures
            r is Some <==> self.offset is Some,
            r matches Some(u) ==> u@ == spec_apply(
                self.proxy@,
                spec_search_url(
                    self.frontend_url@,
                    self.credentials,
                    self.offset->Some_0 as nat,
                    self.options,
                ),
            ),
    {
        match self.offset {
            None => None,
            Some(offset) => {
                let query = build_query(&self.credentials, offset, &self.options);
                let path = join_dir(self.frontend_url.path.as_str(), "search.php");
                let target = UrlParts {
                    scheme: self.frontend_url.scheme.clone(),
                    host: self.frontend_url.host.clone(),
                    path,
                    query,
                };
                Some(self.proxy.apply(&target))
            },
        }
    }

    /// Take one parsed page: enrich its bookings with their deep links,
    /// in document order, and advance the offset by its cursor.
    pub fn feed_response(&mut self, resp: ListResponse) -> (out: Vec<Booking>)
        ensures
            final(self).frontend_url == old(self).frontend_url,
            final(self).proxy == old(self).proxy,
            final(self).credentials == old(self).credentials,
            final(self).options == old(self).options,
            final(self).offset == spec_next_offset(resp.paging),
            out.deep_view().len() == resp.bookings.deep_view().len(),
            forall|j: int|
                0 <= j < out.deep_view().len() ==> out.deep_view()[j] == enriched(
                    resp.bookings.deep_view()[j],
                    old(self).frontend_url@,
                    old(self).credentials.club@,
                ),
    {
        let mut out: Vec<Booking> = Vec::new();
        let mut i: usize = 0;
        while i < resp.bookings.len()
            invariant
                i <= resp.bookings.len(),
                *self == *old(self),
                out.deep_view().len() == i,
                forall|j: int|
                    0 <= j < i ==> out.deep_view()[j] == enriched(
                        resp.bookings.deep_view()[j],
                        old(self).frontend_url@,
                        old(self).credentials.club@,
                    ),
            decreases resp.bookings.len() - i,
        {
            let b = &resp.bookings[i];
            let loc = make_url(b.id.as_str(), &self.frontend_url, &self.credentials);
            let mut nb = b.clone();
            nb.location = Some(loc);
            let ghost pre = out.deep_view();
            out.push(nb);
            proof {
                assert(out.deep_view() =~= pre.push(nb@));
                assert(resp.bookings.deep_view()[i as int] == b@);
            }
            i += 1;
        }
        self.offset = next_offset(resp.paging);
        out
    }

    /// Take one fetched page body: parse it, enrich its bookings, and
    /// advance the offset. On a parse error the listing terminates — the
    /// offset becomes `None` and the error is the sequence's last word.
    pub fn feed_page(&mut self, body: &str) -> (r: Result<Vec<Booking>, ParseError>)
        ensures
            final(self).frontend_url == old(self).frontend_url,
            final(self).proxy == old(self).proxy,
            final(self).credentials == old(self).credentials,
            final(self).options == old(self).options,
            r is Ok <==> spec_parse_query(body@) is Ok,
            r matches Err(e) ==> spec_parse_query(body@) matches Err(e2) && e == e2
                && final(self).offset is None,
            r matches Ok(out) ==> ({
                let t = spec_parse_query(body@)->Ok_0;
                &&& final(self).offset == spec_next_offset(t.0)
                &&& out.deep_view().len() == t.1.len()
                &&& forall|j: int|
                    0 <= j < t.1.len() ==> out.deep_view()[j] == enriched(
                        t.1[j],
                        old(self).frontend_url@,
                        old(self).credentials.club@,
                    )
            }),
    {
        match parse_query(body) {
            Ok(resp) => Ok(self.feed_response(resp)),
            Err(e) => {
                self.offset = None;
                Err(e)
            },
        }
    }
}

} // verus!
