//! REST search adapter: query parameters out, one page of records back.
//!
//! The raw response lists messages newest first; normalization reverses
//! them so the page is chronological. This backend pages never: a page
//! carries no continuation token.

use vstd::prelude::*;

use crate::query::{GenericQuery, ResponseError};
use crate::records::{
    is_json_object, json_elements, json_member, json_of_text, json_text, parsed_json, Page,
};
use crate::text::spec_join;

verus! {

/// The free-text parameter: terms joined by spaces, or `*` for all.
pub open spec fn spec_query_param(terms: Seq<Seq<char>>) -> Seq<char> {
    if terms.len() > 0 {
        spec_join(terms, seq![' '])
    } else {
        "*"@
    }
}

/// Appends the `query` parameter: the terms joined by single spaces, or
/// `*` when there are none.
pub fn assign_query(query: &Vec<String>, params: &mut Vec<(String, String)>)
    ensures
        final(params)@.len() == old(params)@.len() + 1,
        final(params)@.drop_last() == old(params)@,
        final(params)@.last().0@ == "query"@,
        final(params)@.last().1@ == spec_query_param(query.deep_view()),
{
    let value = if query.len() > 0 {
        crate::text::join_spaced(query)
    } else {
        String::from_str("*")
    };
    params.push((String::from_str("query"), value));
    proof {
        assert(final(params)@.drop_last() =~= old(params)@);
    }
}

/// The native request of this backend: URL query parameters, in a fixed
/// order. `query` holds the joined terms or `*`; `limit` is the cap or
/// `0` for none; `from` and `to` carry the window bounds as RFC-3339
/// UTC text.
pub fn build_params(query: &GenericQuery) -> (r: Vec<(String, String)>)
    ensures
        r@.len() == 4,
        r@[0].0@ == "query"@ && r@[0].1@ == spec_query_param(query.terms.deep_view()),
        r@[1].0@ == "limit"@ && r@[1].1@ == (match query.limit {
            Some(n) => crate::text::spec_decimal(n as int),
            None => "0"@,
        }),
        r@[2].0@ == "from"@ && r@[2].1@ == crate::datetime::spec_rfc3339(
            query.window.from_ms as int,
        ),
        r@[3].0@ == "to"@ && r@[3].1@ == crate::datetime::spec_rfc3339(query.window.to_ms as int),
{
    let mut params: Vec<(String, String)> = Vec::new();
    assign_query(&query.terms, &mut params);
    let limit_text = match query.limit {
        Some(n) => crate::text::decimal_string(n),
        None => String::from_str("0"),
    };
    params.push((String::from_str("limit"), limit_text));
    params.push((String::from_str("from"), crate::datetime::format_rfc3339(query.window.from_ms)));
    params.push((String::from_str("to"), crate::datetime::format_rfc3339(query.window.to_ms)));
    params
}

/// The placeholder for an entry whose `message` member is not an object.
pub const PLACEHOLDER_NOT_OBJECT: &'static str = "unreadable record: message is not an object";

/// The placeholder for an entry that carries no `message` member.
pub const PLACEHOLDER_MISSING: &'static str = "unreadable record: message is missing";

/// The record one raw entry normalizes to: its `message` member when
/// that member is an object, else the named diagnostic placeholder.
pub open spec fn spec_message_record(entry: serde_json::Value) -> serde_json::Value {
    match json_member(entry, "message"@) {
        Some(m) => if is_json_object(m) {
            m
        } else {
            json_of_text(PLACEHOLDER_NOT_OBJECT@)
        },
        None => json_of_text(PLACEHOLDER_MISSING@),
    }
}

/// The record of one raw message entry: its `message` object, or a
/// diagnostic placeholder when the entry does not carry one — a bad
/// record degrades, it does not fail the page.
pub fn message_record(entry: &serde_json::Value) -> (r: serde_json::Value)
    ensures
        r == spec_message_record(*entry),
{
    match crate::records::json_get(entry, "message") {
        Some(m) => {
            if crate::records::json_is_object(&m) {
                m
            } else {
                crate::records::json_text_value(PLACEHOLDER_NOT_OBJECT)
            }
        },
        None => crate::records::json_text_value(PLACEHOLDER_MISSING),
    }
}

/// The raw entries a response body carries: the `messages` array,
/// newest first; an absent member means no entries; anything else is a
/// decode failure.
pub open spec fn spec_raw_entries(body: Seq<char>) -> Option<Seq<serde_json::Value>> {
    match parsed_json(body) {
        None => None,
        Some(parsed) => match json_member(parsed, "messages"@) {
            None => Some(Seq::empty()),
            Some(m) => json_elements(m),
        },
    }
}

/// Decodes a search response body into a chronological page: exactly
/// the raw entries' message-objects-or-placeholders, in reverse of the
/// newest-first raw order; a body without the expected shape is a
/// decode failure, and nothing else is. The page never carries a
/// continuation token: this backend serves one page per request.
pub fn decode_page(body: &str) -> (r: Result<Page, ResponseError>)
    ensures
        match spec_raw_entries(body@) {
            Some(raw) => r matches Ok(p) && p.continuation is None && p.records@
                == raw.map_values(|e: serde_json::Value| spec_message_record(e)).reverse(),
            None => r matches Err(ResponseError::Conversion(_)),
        },
{
    let parsed = match crate::records::json_parse(body) {
        Some(v) => v,
        None => {
            return Err(
                ResponseError::Conversion(
                    String::from_str("response body is not the expected JSON shape"),
                ),
            );
        },
    };
    let raw = match crate::records::json_get(&parsed, "messages") {
        Some(m) => {
            match crate::records::json_as_array(&m) {
                Some(entries) => entries,
                None => {
                    return Err(
                        ResponseError::Conversion(String::from_str("messages is not an array")),
                    );
                },
            }
        },
        None => Vec::new(),
    };
    let newest_first_records = extract_records(&raw);
    let records = crate::records::chronological(newest_first_records);
    Ok(Page { records, continuation: None })
}

/// One record per raw entry, in the raw order.
fn extract_records(raw: &Vec<serde_json::Value>) -> (r: Vec<serde_json::Value>)
    ensures
        r@ == raw@.map_values(|e: serde_json::Value| spec_message_record(e)),
{
    let mut out: Vec<serde_json::Value> = Vec::new();
    let mut i: usize = 0;
    while i < raw.len()
        invariant
            i <= raw@.len(),
            out@ == raw@.take(i as int).map_values(|e: serde_json::Value| spec_message_record(e)),
        decreases raw@.len() - i,
    {
        out.push(message_record(&raw[i]));
        proof {
            assert(out@ =~= raw@.take(i + 1).map_values(
                |e: serde_json::Value| spec_message_record(e),
            ));
        }
        i = i + 1;
    }
    proof {
        assert(raw@.take(raw@.len() as int) =~= raw@);
    }
    out
}

/// The detail an error body yields: the text of its `message` member,
/// when the body is JSON of that shape.
pub open spec fn spec_error_details(body: Seq<char>) -> Option<Seq<char>> {
    match parsed_json(body) {
        None => None,
        Some(v) => match json_member(v, "message"@) {
            None => None,
            Some(m) => json_text(m),
        },
    }
}

/// The detail of an error body: its `message` member, when the body is
/// JSON and carries one; `None` otherwise, never a failure.
pub fn error_details(body: &str) -> (r: Option<String>)
    ensures
        match spec_error_details(body@) {
            Some(t) => r matches Some(s) && s@ == t,
            None => r is None,
        },
{
    match crate::records::json_parse(body) {
        Some(v) => {
            match crate::records::json_get(&v, "message") {
                Some(m) => crate::records::json_as_str(&m),
                None => None,
            }
        },
        None => None,
    }
}

/// One response, classified and decoded: success decodes the body into
/// the chronological page; an authentication-rejecting status is an
/// authentication failure whatever the body holds; any other status is
/// the unexpected-status error carrying the body's extracted `message`
/// or, when the body is not the error shape, the fixed fallback text.
pub fn handle_response(status: u16, body: &str) -> (r: Result<Page, ResponseError>)
    ensures
        status == 200 ==> (match spec_raw_entries(body@) {
            Some(raw) => r matches Ok(p) && p.continuation is None && p.records@
                == raw.map_values(|e: serde_json::Value| spec_message_record(e)).reverse(),
            None => r matches Err(ResponseError::Conversion(_)),
        }),
        status == 401 ==> (r matches Err(ResponseError::AuthenticationFailure)),
        (status != 200 && status != 401) ==> (r matches Err(
            ResponseError::UnexpectedStatus(sc, d),
        ) && sc == status && d@ == (match spec_error_details(body@) {
            Some(m) => m,
            None => crate::query::NO_DETAILS@,
        })),
{
    match crate::query::classify_response(status, String::from_str(body)) {
        Ok(b) => decode_page(b.as_str()),
        Err(ResponseError::UnexpectedStatus(sc, raw)) => {
            Err(crate::query::unexpected_status(sc, error_details(raw.as_str())))
        },
        Err(e) => Err(e),
    }
}

} // verus!
