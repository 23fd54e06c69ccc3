//! A plain-parts model of the URLs this client builds: `scheme://host/path?query`.
//!
//! The client only ever constructs URLs of that shape (no fragments, no
//! userinfo), so the model holds exactly what the logic reads: scheme, host
//! (with an explicit port when one is given), path, and the decoded query
//! pairs. Percent-encoding a query is delegated to the `url` crate behind
//! a trusted wrapper; parsing a URL string happens outside the core, which
//! receives its base URL already taken apart.

use vstd::prelude::*;
use crate::model::Credentials;

verus! {

/// Spec-level image of a [`UrlParts`] value.
pub ghost struct UrlPartsV {
    pub scheme: Seq<char>,
    pub host: Seq<char>,
    pub path: Seq<char>,
    pub query: Seq<(Seq<char>, Seq<char>)>,
}

/// A URL of the shape `scheme://host/path?query`, held as plain parts.
/// `host` includes `:port` when the URL names an explicit port; `query`
/// holds decoded key/value pairs in order.
#[derive(Debug, PartialEq, Eq)]
pub struct UrlParts {
    pub scheme: String,
    pub host: String,
    pub path: String,
    pub query: Vec<(String, String)>,
}

impl View for UrlParts {
    type V = UrlPartsV;

    open spec fn view(&self) -> UrlPartsV {
        UrlPartsV {
            scheme: self.scheme@,
            host: self.host@,
            path: self.path@,
            query: self.query.deep_view(),
        }
    }
}

/// Clone a list of query pairs, keeping its spec-level contents.
pub(crate) fn clone_pairs(v: &Vec<(String, String)>) -> (r: Vec<(String, String)>)
    ensures
        r.deep_view() == v.deep_view(),
{
    let mut r: Vec<(String, String)> = Vec::new();
    let mut i: usize = 0;
    while i < v.len()
        invariant
            i <= v.len(),
            r.deep_view() =~= v.deep_view().take(i as int),
        decreases v.len() - i,
    {
        let p = &v[i];
        let x = (p.0.clone(), p.1.clone());
        let ghost pre = r.deep_view();
        r.push(x);
        proof {
            assert(x.deep_view() == v.deep_view()[i as int]);
            assert(r.deep_view() =~= pre.push(x.deep_view()));
            assert(r.deep_view() =~= v.deep_view().take(i as int + 1));
        }
        i += 1;
    }
    proof {
        assert(r.deep_view() =~= v.deep_view());
    }
    r
}

impl Clone for UrlParts {
    fn clone(&self) -> (r: Self)
        ensures
            r@ == self@,
    {
        UrlParts {
            scheme: self.scheme.clone(),
            host: self.host.clone(),
            path: self.path.clone(),
            query: clone_pairs(&self.query),
        }
    }
}

/// The exact string the `url` crate produces when the pairs are serialized
/// as an `application/x-www-form-urlencoded` query.
pub uninterp spec fn encoded_query_of(q: Seq<(Seq<char>, Seq<char>)>) -> Seq<char>;

/// Relies on url::form_urlencoded::Serializer: percent-encodes the given
/// key/value pairs into one query string; the result depends on the pairs
/// alone.
#[verifier::external_body]
pub(crate) fn encode_query(pairs: &Vec<(String, String)>) -> (r: String)
    ensures
        r@ == encoded_query_of(pairs.deep_view()),
{
    let mut ser = url::form_urlencoded::Serializer::new(String::new());
    for (k, v) in pairs.iter() {
        ser.append_pair(k, v);
    }
    ser.finish()
}

/// The full string form of a URL held as parts.
pub open spec fn url_str_of(u: UrlPartsV) -> Seq<char> {
    u.scheme + "://"@ + u.host + u.path + if u.query.len() == 0 {
        Seq::<char>::empty()
    } else {
        "?"@ + encoded_query_of(u.query)
    }
}

impl UrlParts {
    /// Render the URL as one string, encoding the query through the
    /// `url` crate.
    pub fn full_string(&self) -> (r: String)
        ensures
            r@ == url_str_of(self@),
    {
        let mut s = self.scheme.clone();
        s.append("://");
        s.append(self.host.as_str());
        s.append(self.path.as_str());
        if self.query.len() > 0 {
            s.append("?");
            let q = encode_query(&self.query);
            s.append(q.as_str());
        }
        proof {
            assert(s@ =~= url_str_of(self@));
        }
        s
    }
}

/// The prefix of `p` up to and including its last `/`; `p` itself when it
/// ends in `/`, empty when it holds no `/` at all.
pub open spec fn dir_of(p: Seq<char>) -> Seq<char>
    decreases p.len(),
{
    if p.len() == 0 {
        p
    } else if p[p.len() - 1] == '/' {
        p
    } else {
        dir_of(p.drop_last())
    }
}

/// Resolve a bare file name against a base path, as the final segment of
/// the directory the base path lies in.
pub fn join_dir(path: &str, file: &str) -> (r: String)
    ensures
        r@ == dir_of(path@) + file@,
{
    let ghost p = path@;
    let n = path.unicode_len();
    let mut i: usize = n;
    proof {
        assert(p.take(n as int) =~= p);
    }
    loop
        invariant
            i <= n,
            n == p.len(),
            p == path@,
            dir_of(p) == dir_of(p.take(i as int)),
        ensures
            i <= n,
            n == p.len(),
            p == path@,
            dir_of(p) == dir_of(p.take(i as int)),
            i == 0 || p[i as int - 1] == '/',
        decreases i,
    {
        if i == 0 {
            break;
        }
        let c = path.get_char(i - 1);
        if c == '/' {
            break;
        }
        proof {
            assert(p.take(i as int).drop_last() =~= p.take(i as int - 1));
        }
        i -= 1;
    }
    proof {
        if i == 0 {
            assert(p.take(0) =~= Seq::<char>::empty());
            assert(dir_of(p) =~= p.take(i as int));
        } else {
            assert(p.take(i as int)[i as int - 1] == p[i as int - 1]);
            assert(dir_of(p) =~= p.take(i as int));
        }
    }
    let prefix = path.substring_char(0, i);
    let mut s = String::from_str(prefix);
    s.append(file);
    proof {
        assert(s@ =~= dir_of(path@) + file@);
    }
    s
}

/// The canonical deep-link URL for one booking: the viewer path on the
/// booking system's own host, with exactly the club and the booking id as
/// its query.
pub open spec fn deep_link_of(base: UrlPartsV, club: Seq<char>, id: Seq<char>) -> UrlPartsV {
    UrlPartsV {
        scheme: base.scheme,
        host: base.host,
        path: "/buchung/view_entry.php"@,
        query: seq![("club"@, club), ("id"@, id)],
    }
}

/// Create the deep-link URL for a booking: keep the frontend base's scheme
/// and host, point the path at the booking viewer, and replace the query
/// with exactly `club` and `id`.
pub fn make_url(id: &str, url: &UrlParts, credentials: &Credentials) -> (r: UrlParts)
    ensures
        r@ == deep_link_of(url@, credentials.club@, id@),
{
    let mut query: Vec<(String, String)> = Vec::new();
    query.push((String::from_str("club"), credentials.club.clone()));
    query.push((String::from_str("id"), String::from_str(id)));
    let r = UrlParts {
        scheme: url.scheme.clone(),
        host: url.host.clone(),
        path: String::from_str("/buchung/view_entry.php"),
        query,
    };
    proof {
        assert(r@.query =~= deep_link_of(url@, credentials.club@, id@).query);
    }
    r
}

} // verus!
