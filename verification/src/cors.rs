//! The relay strategy: rewriting an outgoing request's target URL so that
//! it reaches the booking system either directly or through a
//! cross-origin relay.

use vstd::prelude::*;
use crate::urls::{url_str_of, UrlParts, UrlPartsV};

verus! {

/// Spec-level image of a [`CorsProxy`] value.
pub ghost enum CorsProxyV {
    Direct,
    Prepend(UrlPartsV),
    Query { url: UrlPartsV, parameter: Seq<char> },
}

/// How outgoing requests reach the booking system. Chosen once per client
/// and applied identically to every request.
#[derive(Debug)]
pub enum CorsProxy {
    /// No relay: the request goes to the target URL itself.
    Direct,
    /// The target URL's full string form becomes the path of the relay
    /// URL; the relay recovers the target from the path it is handed.
    Prepend(UrlParts),
    /// The relay URL's query is replaced by a single parameter whose
    /// value is the target URL's full string form.
    Query { url: UrlParts, parameter: String },
}

impl View for CorsProxy {
    type V = CorsProxyV;

    open spec fn view(&self) -> CorsProxyV {
        match self {
            CorsProxy::Direct => CorsProxyV::Direct,
            CorsProxy::Prepend(u) => CorsProxyV::Prepend(u@),
            CorsProxy::Query { url, parameter } => CorsProxyV::Query {
                url: url@,
                parameter: parameter@,
            },
        }
    }
}

impl Clone for CorsProxy {
    fn clone(&self) -> (r: Self)
        ensures
            r@ == self@,
    {
        match self {
            CorsProxy::Direct => CorsProxy::Direct,
            CorsProxy::Prepend(u) => CorsProxy::Prepend(u.clone()),
            CorsProxy::Query { url, parameter } => CorsProxy::Query {
                url: url.clone(),
                parameter: parameter.clone(),
            },
        }
    }
}

/// What the relay strategy does to a target URL: leave it untouched,
/// replace the relay URL's path with the target's string form, or replace
/// the relay URL's query with one parameter carrying the target's string
/// form.
pub open spec fn spec_apply(p: CorsProxyV, target: UrlPartsV) -> UrlPartsV {
    match p {
        CorsProxyV::Direct => target,
        CorsProxyV::Prepend(relay) => UrlPartsV {
            scheme: relay.scheme,
            host: relay.host,
            path: url_str_of(target),
            query: relay.query,
        },
        CorsProxyV::Query { url: relay, parameter } => UrlPartsV {
            scheme: relay.scheme,
            host: relay.host,
            path: relay.path,
            query: seq![(parameter, url_str_of(target))],
        },
    }
}

impl CorsProxy {
    /// Rewrite one outgoing request's target URL. Pure and total: a
    /// direct strategy returns the target unchanged; a relay strategy
    /// keeps the relay's scheme and host and embeds the target's full
    /// string form in the path or in a single query parameter.
    pub fn apply(&self, target: &UrlParts) -> (r: UrlParts)
        ensures
            r@ == spec_apply(self@, target@),
            self@ is Direct ==> r@ == target@,
            self@ matches CorsProxyV::Prepend(relay) ==> r@.scheme == relay.scheme
                && r@.host == relay.host && r@.path == url_str_of(target@),
            self@ matches CorsProxyV::Query { url: relay, parameter } ==> r@.scheme
                == relay.scheme && r@.host == relay.host && r@.query == seq![
                (parameter, url_str_of(target@)),
            ],
    {
        match self {
            CorsProxy::Direct => target.clone(),
            CorsProxy::Prepend(relay) => {
                let r = UrlParts {
                    scheme: relay.scheme.clone(),
                    host: relay.host.clone(),
                    path: target.full_string(),
                    query: crate::urls::clone_pairs(&relay.query),
                };
                r
            },
            CorsProxy::Query { url: relay, parameter } => {
                let mut query: Vec<(String, String)> = Vec::new();
                query.push((parameter.clone(), target.full_string()));
                let r = UrlParts {
                    scheme: relay.scheme.clone(),
                    host: relay.host.clone(),
                    path: relay.path.clone(),
                    query,
                };
                proof {
                    assert(r@.query =~= seq![(parameter@, url_str_of(target@))]);
                }
                r
            },
        }
    }
}

} // verus!
