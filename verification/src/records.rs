//! Normalized records and the trusted boundary to the JSON library.
//!
//! A normalized record is an opaque JSON value; every backend response is
//! reduced to a sequence of them. The functions that read or build JSON
//! values call into serde_json and are trusted; everything that orders,
//! reverses or concatenates records is verified.

use vstd::prelude::*;

verus! {

/// JSON values carried through the library as opaque normalized records.
#[verifier::external_type_specification]
#[verifier::external_body]
pub struct ExJsonValue(serde_json::Value);

/// One backend response worth of records, oldest first, and the
/// continuation token under which the backend serves the next page.
#[derive(Debug)]
pub struct Page {
    pub records: Vec<serde_json::Value>,
    pub continuation: Option<String>,
}

/// What serde_json::from_str yields for given text: a function of the
/// text alone.
pub uninterp spec fn parsed_json(s: Seq<char>) -> Option<serde_json::Value>;

/// The member a JSON value holds under a key, when it is an object with
/// one: a function of value and key alone.
pub uninterp spec fn json_member(v: serde_json::Value, key: Seq<char>) -> Option<serde_json::Value>;

/// The elements of a JSON value, when it is an array.
pub uninterp spec fn json_elements(v: serde_json::Value) -> Option<Seq<serde_json::Value>>;

/// The text of a JSON value, when it is a string.
pub uninterp spec fn json_text(v: serde_json::Value) -> Option<Seq<char>>;

/// Whether a JSON value is an object.
pub uninterp spec fn is_json_object(v: serde_json::Value) -> bool;

/// The JSON string value wrapping given text.
pub uninterp spec fn json_of_text(s: Seq<char>) -> serde_json::Value;

/// Relies on serde_json::from_str: parses text into a JSON value, `None`
/// when the text is not JSON.
#[verifier::external_body]
pub(crate) fn json_parse(body: &str) -> (r: Option<serde_json::Value>)
    ensures
        r == parsed_json(body@),
{
    serde_json::from_str(body).ok()
}

/// Relies on serde_json::Value::get: the member under `key` when the
/// value is an object holding one.
#[verifier::external_body]
pub(crate) fn json_get(v: &serde_json::Value, key: &str) -> (r: Option<serde_json::Value>)
    ensures
        r == json_member(*v, key@),
{
    v.get(key).cloned()
}

/// Relies on serde_json::Value::as_array: the elements when the value is
/// an array.
#[verifier::external_body]
pub(crate) fn json_as_array(v: &serde_json::Value) -> (r: Option<Vec<serde_json::Value>>)
    ensures
        match r {
            Some(a) => json_elements(*v) == Some(a@),
            None => json_elements(*v) is None,
        },
{
    v.as_array().cloned()
}

/// Relies on serde_json::Value::as_str: the text when the value is a
/// string.
#[verifier::external_body]
pub(crate) fn json_as_str(v: &serde_json::Value) -> (r: Option<String>)
    ensures
        match r {
            Some(s) => json_text(*v) == Some(s@),
            None => json_text(*v) is None,
        },
{
    v.as_str().map(str::to_owned)
}

/// Relies on serde_json::Value::is_object.
#[verifier::external_body]
pub(crate) fn json_is_object(v: &serde_json::Value) -> (r: bool)
    ensures
        r == is_json_object(*v),
{
    v.is_object()
}

/// Relies on serde_json::Value::from: wraps text as a JSON string value,
/// used as the diagnostic placeholder for a record that could not be
/// decoded.
#[verifier::external_body]
pub(crate) fn json_text_value(s: &str) -> (r: serde_json::Value)
    ensures
        r == json_of_text(s@),
{
    serde_json::Value::from(s)
}

/// Reverses a record sequence: a backend that answers newest first is
/// normalized to chronological, oldest-first order this way.
pub fn chronological(records: Vec<serde_json::Value>) -> (r: Vec<serde_json::Value>)
    ensures
        r@ == records@.reverse(),
{
    let ghost orig = records@;
    let mut rest = records;
    let mut out: Vec<serde_json::Value> = Vec::new();
    loop
        invariant
            rest@.len() <= orig.len(),
            rest@ == orig.take(rest@.len() as int),
            out@ == orig.skip(rest@.len() as int).reverse(),
        ensures
            out@ == orig.reverse(),
        decreases rest@.len(),
    {
        match rest.pop() {
            None => {
                proof {
                    assert(orig.skip(0) =~= orig);
                }
                break;
            },
            Some(v) => {
                proof {
                    let k = rest@.len() as int;
                    assert(orig.take(k + 1).drop_last() =~= orig.take(k));
                    assert(orig.take(k + 1).last() == orig[k]);
                    assert(orig.skip(k).reverse() =~= orig.skip(k + 1).reverse().push(orig[k]));
                }
                out.push(v);
            },
        }
    }
    out
}

/// The records of a run of pages, in page order.
pub open spec fn pages_records(ps: Seq<Page>) -> Seq<serde_json::Value>
    decreases ps.len(),
{
    if ps.len() == 0 {
        Seq::empty()
    } else {
        ps[0].records@ + pages_records(ps.drop_first())
    }
}

} // verus!
