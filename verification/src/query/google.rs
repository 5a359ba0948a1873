//! Log-tailing RPC adapter: a filter expression out, token-chained
//! pages back.
//!
//! This backend pages server-side: every response carries a continuation
//! token until the last one. `TailPaging` tracks that chain, and
//! `drain_pages` is the verified shape of the whole exchange: one
//! request per page, records concatenated in page order.

use vstd::prelude::*;

use crate::query::GenericQuery;
use crate::records::{pages_records, Page};
use crate::text::spec_join;

verus! {

/// The filter text sent to the tailing service: the window bounds as
/// quoted RFC-3339 text, with the joined terms appended when present.
/// An unbounded tail omits the end bound, and the service streams past
/// it.
pub open spec fn spec_filter(terms: Seq<Seq<char>>, from: int, to: int, bounded: bool) -> Seq<
    char,
> {
    let range = if bounded {
        "timestamp >= \""@ + crate::datetime::spec_rfc3339(from) + "\" AND timestamp < \""@
            + crate::datetime::spec_rfc3339(to) + "\""@
    } else {
        "timestamp >= \""@ + crate::datetime::spec_rfc3339(from) + "\""@
    };
    if terms.len() > 0 {
        range + " AND "@ + spec_join(terms, seq![' '])
    } else {
        range
    }
}

/// Builds the filter for a query; `bounded` selects whether the window's
/// end is part of it.
pub fn build_filter(query: &GenericQuery, bounded: bool) -> (r: String)
    ensures
        r@ == spec_filter(
            query.terms.deep_view(),
            query.window.from_ms as int,
            query.window.to_ms as int,
            bounded,
        ),
{
    let mut out = String::from_str("timestamp >= \"");
    out.append(crate::datetime::format_rfc3339(query.window.from_ms).as_str());
    if bounded {
        out.append("\" AND timestamp < \"");
        out.append(crate::datetime::format_rfc3339(query.window.to_ms).as_str());
        out.append("\"");
    } else {
        out.append("\"");
    }
    if query.terms.len() > 0 {
        out.append(" AND ");
        out.append(crate::text::join_spaced(&query.terms).as_str());
    }
    proof {
        assert(out@ =~= spec_filter(
            query.terms.deep_view(),
            query.window.from_ms as int,
            query.window.to_ms as int,
            bounded,
        ));
    }
    out
}

/// The token chain of one paged exchange: how many requests went out,
/// the token the next request must carry, and whether the last response
/// ended the run.
pub struct TailPaging {
    pub requests: u64,
    pub token: Option<String>,
    pub finished: bool,
}

impl TailPaging {
    /// A finished run holds no token; the first request carries none.
    pub open spec fn wf(self) -> bool {
        self.finished ==> self.token is None
    }

    /// Before the first request.
    pub fn start() -> (r: Self)
        ensures
            r.requests == 0,
            r.token is None,
            !r.finished,
            r.wf(),
    {
        TailPaging { requests: 0, token: None, finished: false }
    }

    /// The token the next request must carry, or nothing when the run
    /// is over and no request may follow.
    pub fn next_request(&self) -> (r: Option<Option<String>>)
        ensures
            r is Some <==> !self.finished,
            r matches Some(t) ==> t == self.token,
    {
        if self.finished {
            None
        } else {
            match &self.token {
                None => Some(None),
                Some(t) => Some(Some(t.clone())),
            }
        }
    }

    /// Accounts one response: its continuation token becomes the next
    /// request's token, and an absent token ends the run.
    pub fn feed(&mut self, continuation: Option<String>)
        requires
            !old(self).finished,
            old(self).requests < u64::MAX,
        ensures
            final(self).requests == old(self).requests + 1,
            final(self).token == continuation,
            final(self).finished <==> continuation is None,
            final(self).wf(),
    {
        self.requests = self.requests + 1;
        self.finished = continuation.is_none();
        self.token = continuation;
    }
}

/// A complete run of pages: every page but the last carries a token,
/// the last does not.
pub open spec fn complete_run(ps: Seq<Page>) -> bool {
    &&& ps.len() > 0
    &&& forall|i: int| 0 <= i < ps.len() - 1 ==> (#[trigger] ps[i].continuation) is Some
    &&& ps[ps.len() - 1].continuation is None
}

/// Drains a complete run of pages through the token chain: exactly one
/// request per page is accounted, and the result is the concatenation
/// of the pages' records in page order.
pub fn drain_pages(pages: Vec<Page>) -> (r: (Vec<serde_json::Value>, u64))
    requires
        complete_run(pages@),
        pages@.len() <= u64::MAX,
    ensures
        r.0@ == pages_records(pages@),
        r.1 == pages@.len(),
{
    let ghost orig = pages@;
    let mut rest = pages;
    let mut out: Vec<serde_json::Value> = Vec::new();
    let mut paging = TailPaging::start();
    proof {
        assert(orig.skip(0) =~= orig);
    }
    loop
        invariant
            rest@.len() <= orig.len() <= u64::MAX,
            rest@ == orig.skip(orig.len() - rest@.len()),
            paging.requests == orig.len() - rest@.len(),
            out@ + pages_records(rest@) == pages_records(orig),
            paging.finished <==> rest@.len() == 0,
            complete_run(orig),
        ensures
            out@ == pages_records(orig),
            paging.requests == orig.len(),
        decreases rest@.len(),
    {
        if paging.next_request().is_none() {
            proof {
                assert(pages_records(rest@) =~= Seq::<serde_json::Value>::empty());
                assert(out@ =~= out@ + pages_records(rest@));
            }
            break;
        }
        let mut page = rest.remove(0);
        proof {
            let k = orig.len() - rest@.len() - 1;
            assert(orig.skip(k)[0] == orig[k]);
            assert(orig.skip(k).drop_first() =~= orig.skip(k + 1));
            assert(pages_records(orig.skip(k)) == orig[k].records@ + pages_records(
                orig.skip(k + 1),
            ));
            if rest@.len() == 0 {
                assert(orig[orig.len() - 1].continuation is None);
            } else {
                assert(orig[k].continuation is Some);
            }
        }
        out.append(&mut page.records);
        paging.feed(page.continuation);
        proof {
            assert(out@ + pages_records(rest@) =~= pages_records(orig));
        }
    }
    (out, paging.requests)
}

/// The monitored resource an entry was emitted against.
#[derive(Debug, Clone)]
pub struct MonitoredResource {
    pub resource_type: String,
    pub labels: Vec<(String, String)>,
}

/// The HTTP request an entry describes, where it describes one.
/// Latency is seconds and nanoseconds.
#[derive(Debug, Clone)]
pub struct HttpRequest {
    pub request_method: String,
    pub request_url: String,
    pub request_size: i64,
    pub status: i32,
    pub response_size: i64,
    pub user_agent: String,
    pub remote_ip: String,
    pub server_ip: String,
    pub referer: String,
    pub latency: Option<(u64, u32)>,
    pub cache_lookup: bool,
    pub cache_hit: bool,
    pub cache_validated_with_origin_server: bool,
    pub cache_fill_bytes: i64,
    pub protocol: String,
}

/// The long-running operation an entry belongs to.
#[derive(Debug, Clone)]
pub struct LogEntryOperation {
    pub id: String,
    pub producer: String,
    pub first: bool,
    pub last: bool,
}

/// The source location that produced an entry.
#[derive(Debug, Clone)]
pub struct LogEntrySourceLocation {
    pub file: String,
    pub line: i64,
    pub function: String,
}

/// Where an audited resource lives now and lived before.
#[derive(Debug, Clone)]
pub struct ResourceLocation {
    pub current_locations: Vec<String>,
    pub original_locations: Vec<String>,
}

/// The outcome code and message of an audited operation.
#[derive(Debug, Clone)]
pub struct Status {
    pub code: i32,
    pub message: String,
}

/// One authorization check of an audited operation.
#[derive(Debug, Clone)]
pub struct AuthorizationInfo {
    pub resource: String,
    pub permission: String,
    pub granted: bool,
}

/// The caller metadata of an audited operation.
#[derive(Debug, Clone)]
pub struct RequestMetadata {
    pub caller_ip: String,
    pub caller_supplied_user_agent: String,
    pub caller_network: String,
}

} // verus!
