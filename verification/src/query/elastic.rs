//! Document-store search adapter: a structured request out, one page of
//! records back.
//!
//! The request asks for ascending timestamp order, so the page is
//! already chronological; this backend models no continuation token and
//! serves one request per call.

use vstd::prelude::*;

use crate::query::{GenericQuery, ResponseError};
use crate::records::{json_elements, json_member, json_of_text, json_text, parsed_json, Page};
use crate::text::spec_join;
use crate::TimeWindow;

verus! {

/// Bounds of a range clause; unused bounds stay absent.
#[derive(Debug)]
pub struct Range {
    pub gt: Option<String>,
    pub gte: Option<String>,
    pub lt: Option<String>,
    pub lte: Option<String>,
}

impl Default for Range {
    /// All four bounds absent.
    fn default() -> (r: Self)
        ensures
            r.gt is None && r.gte is None && r.lt is None && r.lte is None,
    {
        Range { gt: None, gte: None, lt: None, lte: None }
    }
}

/// The boolean combinators of the native query language; absent arms
/// are not sent.
#[derive(Debug)]
pub struct QueryBool {
    pub must: Option<Vec<Query>>,
    pub filter: Option<Vec<Query>>,
    pub should: Option<Vec<Query>>,
    pub must_not: Option<Vec<Query>>,
}

impl Default for QueryBool {
    /// All four arms absent.
    fn default() -> (r: Self)
        ensures
            r.must is None && r.filter is None && r.should is None && r.must_not is None,
    {
        QueryBool { must: None, filter: None, should: None, must_not: None }
    }
}

/// One clause of the native query language.
#[derive(Debug)]
pub enum Query {
    SimpleQueryString { query: String, fields: Option<Vec<String>> },
    QueryString { query: String },
    Range { field: String, bounds: Range },
    Bool(QueryBool),
}

/// The native search request: page cap, sort order and the query tree.
#[derive(Debug)]
pub struct Request {
    pub size: Option<u32>,
    pub sort: Vec<(String, String)>,
    pub query: Query,
}

/// The default page cap sent with every request.
pub const PAGE_SIZE: u32 = 10000;

/// A half-open range clause on `@timestamp`: at or after `from`, before
/// `to`, both as text; no other bound present.
pub open spec fn is_timestamp_range(q: Query, from: Seq<char>, to: Seq<char>) -> bool {
    &&& q matches Query::Range { field, bounds }
    &&& field@ == "@timestamp"@
    &&& bounds.gte matches Some(g) && g@ == from
    &&& bounds.lt matches Some(l) && l@ == to
    &&& bounds.gt is None
    &&& bounds.lte is None
}

/// The range clause both request forms share.
fn timestamp_range(window: TimeWindow) -> (r: Query)
    ensures
        is_timestamp_range(
            r,
            crate::datetime::spec_rfc3339(window.from_ms as int),
            crate::datetime::spec_rfc3339(window.to_ms as int),
        ),
{
    Query::Range {
        field: String::from_str("@timestamp"),
        bounds: Range {
            gt: None,
            gte: Some(crate::datetime::format_rfc3339(window.from_ms)),
            lt: Some(crate::datetime::format_rfc3339(window.to_ms)),
            lte: None,
        },
    }
}

/// The native request for a generic query: the page cap, an ascending
/// sort on `@timestamp`, and a query that is exactly the range clause
/// when there are no terms — no boolean wrapper then — or a boolean
/// `must` of the joined free-text clause and that same range clause.
pub fn build_request(query: &GenericQuery) -> (r: Request)
    ensures
        r.size == Some(PAGE_SIZE),
        r.sort@.len() == 1,
        r.sort@[0].0@ == "@timestamp"@,
        r.sort@[0].1@ == "asc"@,
        query.terms@.len() == 0 ==> is_timestamp_range(
            r.query,
            crate::datetime::spec_rfc3339(query.window.from_ms as int),
            crate::datetime::spec_rfc3339(query.window.to_ms as int),
        ),
        query.terms@.len() > 0 ==> {
            &&& r.query matches Query::Bool(b)
            &&& b.filter is None && b.should is None && b.must_not is None
            &&& b.must matches Some(m)
            &&& m@.len() == 2
            &&& m@[0] matches Query::QueryString { query: q } && q@ == spec_join(
                query.terms.deep_view(),
                seq![' '],
            )
            &&& is_timestamp_range(
                m@[1],
                crate::datetime::spec_rfc3339(query.window.from_ms as int),
                crate::datetime::spec_rfc3339(query.window.to_ms as int),
            )
        },
{
    let range = timestamp_range(query.window);
    let tree = if query.terms.len() > 0 {
        let mut must: Vec<Query> = Vec::new();
        must.push(Query::QueryString { query: crate::text::join_spaced(&query.terms) });
        must.push(range);
        Query::Bool(QueryBool { must: Some(must), filter: None, should: None, must_not: None })
    } else {
        range
    };
    let mut sort: Vec<(String, String)> = Vec::new();
    sort.push((String::from_str("@timestamp"), String::from_str("asc")));
    Request { size: Some(PAGE_SIZE), sort, query: tree }
}

/// The placeholder for a hit that carries no `_source` member.
pub const PLACEHOLDER_MISSING_SOURCE: &'static str = "unreadable record: _source is missing";

/// The record one hit normalizes to: its `_source` member, or the named
/// diagnostic placeholder.
pub open spec fn spec_source_record(hit: serde_json::Value) -> serde_json::Value {
    match json_member(hit, "_source"@) {
        Some(source) => source,
        None => json_of_text(PLACEHOLDER_MISSING_SOURCE@),
    }
}

/// The hits a response body carries, in response order; anything but
/// the expected `hits.hits` array shape is a decode failure.
pub open spec fn spec_hits(body: Seq<char>) -> Option<Seq<serde_json::Value>> {
    match parsed_json(body) {
        None => None,
        Some(parsed) => match json_member(parsed, "hits"@) {
            None => None,
            Some(outer) => match json_member(outer, "hits"@) {
                None => None,
                Some(inner) => json_elements(inner),
            },
        },
    }
}

/// Decodes a search response body into a page: exactly each hit's
/// `_source`-or-placeholder, in response order, which the request's
/// ascending sort makes chronological; a body without the expected hit
/// structure is a decode failure, and nothing else is. No continuation
/// token: one request, one page.
pub fn decode_page(body: &str) -> (r: Result<Page, ResponseError>)
    ensures
        match spec_hits(body@) {
            Some(hs) => r matches Ok(p) && p.continuation is None && p.records@
                == hs.map_values(|h: serde_json::Value| spec_source_record(h)),
            None => r matches Err(ResponseError::Conversion(_)),
        },
{
    let parsed = match crate::records::json_parse(body) {
        Some(v) => v,
        None => {
            return Err(
                ResponseError::Conversion(
                    String::from_str("response body is not the expected JSON shape"),
                ),
            );
        },
    };
    let outer = match crate::records::json_get(&parsed, "hits") {
        Some(h) => h,
        None => {
            return Err(ResponseError::Conversion(String::from_str("response carries no hits")));
        },
    };
    let raw = match crate::records::json_get(&outer, "hits") {
        Some(inner) => {
            match crate::records::json_as_array(&inner) {
                Some(entries) => entries,
                None => {
                    return Err(
                        ResponseError::Conversion(String::from_str("hits is not an array")),
                    );
                },
            }
        },
        None => {
            return Err(ResponseError::Conversion(String::from_str("response carries no hits")));
        },
    };
    let records = extract_sources(&raw);
    Ok(Page { records, continuation: None })
}

/// One record per hit: its `_source` object, or a placeholder for a hit
/// that lacks one.
fn extract_sources(raw: &Vec<serde_json::Value>) -> (r: Vec<serde_json::Value>)
    ensures
        r@ == raw@.map_values(|h: serde_json::Value| spec_source_record(h)),
{
    let mut out: Vec<serde_json::Value> = Vec::new();
    let mut i: usize = 0;
    while i < raw.len()
        invariant
            i <= raw@.len(),
            out@ == raw@.take(i as int).map_values(|h: serde_json::Value| spec_source_record(h)),
        decreases raw@.len() - i,
    {
        let record = match crate::records::json_get(&raw[i], "_source") {
            Some(source) => source,
            None => crate::records::json_text_value(PLACEHOLDER_MISSING_SOURCE),
        };
        out.push(record);
        proof {
            assert(out@ =~= raw@.take(i + 1).map_values(
                |h: serde_json::Value| spec_source_record(h),
            ));
        }
        i = i + 1;
    }
    proof {
        assert(raw@.take(raw@.len() as int) =~= raw@);
    }
    out
}

/// The detail an error body yields: `type: reason` from its `error`
/// member, when the body is JSON of that shape.
pub open spec fn spec_error_details(body: Seq<char>) -> Option<Seq<char>> {
    match parsed_json(body) {
        None => None,
        Some(parsed) => match json_member(parsed, "error"@) {
            None => None,
            Some(error) => match json_member(error, "type"@) {
                None => None,
                Some(kind) => match json_text(kind) {
                    None => None,
                    Some(kind_text) => match json_member(error, "reason"@) {
                        None => None,
                        Some(reason) => match json_text(reason) {
                            None => None,
                            Some(reason_text) => Some(kind_text + ": "@ + reason_text),
                        },
                    },
                },
            },
        },
    }
}

/// The detail of an error body: `type: reason` from its `error` member,
/// when the body is JSON of that shape; `None` otherwise, never a
/// failure.
pub fn error_details(body: &str) -> (r: Option<String>)
    ensures
        match spec_error_details(body@) {
            Some(t) => r matches Some(s) && s@ == t,
            None => r is None,
        },
{
    let parsed = crate::records::json_parse(body)?;
    let error = crate::records::json_get(&parsed, "error")?;
    let kind = crate::records::json_as_str(&crate::records::json_get(&error, "type")?)?;
    let reason = crate::records::json_as_str(&crate::records::json_get(&error, "reason")?)?;
    Some(join_reason(&kind, &reason))
}

/// One response, classified and decoded: success decodes the body into
/// the page of `_source` records; an authentication-rejecting status is
/// an authentication failure whatever the body holds; any other status
/// is the unexpected-status error carrying `type: reason` from the
/// body's `error` member or, when the body is not the error shape, the
/// fixed fallback text.
pub fn handle_response(status: u16, body: &str) -> (r: Result<Page, ResponseError>)
    ensures
        status == 200 ==> (match spec_hits(body@) {
            Some(hs) => r matches Ok(p) && p.continuation is None && p.records@
                == hs.map_values(|h: serde_json::Value| spec_source_record(h)),
            None => r matches Err(ResponseError::Conversion(_)),
        }),
        status == 401 ==> (r matches Err(ResponseError::AuthenticationFailure)),
        (status != 200 && status != 401) ==> (r matches Err(
            ResponseError::UnexpectedStatus(sc, d),
        ) && sc == status && d@ == (match spec_error_details(body@) {
            Some(m) => m,
            None => crate::query::NO_DETAILS@,
        })),
{
    match crate::query::classify_response(status, String::from_str(body)) {
        Ok(b) => decode_page(b.as_str()),
        Err(ResponseError::UnexpectedStatus(sc, raw)) => {
            Err(crate::query::unexpected_status(sc, error_details(raw.as_str())))
        },
        Err(e) => Err(e),
    }
}

/// `type: reason`, exactly.
fn join_reason(kind: &String, reason: &String) -> (r: String)
    ensures
        r@ == kind@ + ": "@ + reason@,
{
    let mut out = kind.clone();
    out.append(": ");
    out.append(reason.as_str());
    out
}

} // verus!
