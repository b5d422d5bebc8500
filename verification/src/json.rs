//! The JSON boundary of the library: encoding a parameter mapping as an
//! object body, and decoding the server's enveloped replies. The encoding
//! and parsing themselves are done by serde_json; each call stands behind an
//! `external_body` wrapper whose result is given a name, and everything
//! around those calls is verified against the names.

use crate::domain::{Event, Response, Subscriber};
use crate::params::{map_of, view_pairs};
use vstd::prelude::*;

verus! {

/// The text serde_json produces for a flat string-to-string object. With
/// serde_json's default map representation the entries are written sorted
/// by key, so the text is a function of the mapping alone — in particular
/// it does not depend on the order the entries were inserted in.
pub uninterp spec fn json_object_text(m: Map<Seq<char>, Seq<char>>) -> Seq<char>;

/// The decode of a reply body as `Response<Event>`: `Some` exactly when the
/// body is JSON whose `code`, `message` and `data.{id,tag,name,message,
/// createTime,modifyTime}` members are all present strings. serde_json is
/// deterministic, so this is a function of the body text alone.
pub uninterp spec fn event_response_of(s: Seq<char>) -> Option<Response<Event>>;

/// The decode of a reply body as `Response<Subscriber>`: `Some` exactly when
/// the body is JSON whose `code`, `message` and `data.{id,tag,email}`
/// members are all present strings.
pub uninterp spec fn subscriber_response_of(s: Seq<char>) -> Option<Response<Subscriber>>;

/// Relies on serde_json::to_string over a std BTreeMap of string slices:
/// serde_json writes one `"key":"value"` member per entry of the map
/// (serialization of such a map never fails), and with its default
/// BTreeMap-backed representation the output depends only on which
/// key/value pairs the map holds, never on insertion order — which is what
/// `json_object_text` states by taking a `Map`.
#[verifier::external_body]
pub(crate) fn encode_json_object(entries: &Vec<(String, String)>) -> (r: String)
    ensures
        r@ == json_object_text(map_of(view_pairs(entries@))),
{
    let m: std::collections::BTreeMap<&str, &str> =
        entries.iter().map(|p| (p.0.as_str(), p.1.as_str())).collect();
    serde_json::to_string(&m).unwrap()
}

/// Relies on serde_json::from_str::<Value> together with Value::get and
/// Value::as_str: parsing fails exactly on malformed JSON, `get` returns the
/// member of an object under the given key, and `as_str` returns the text of
/// a JSON string and `None` for every other shape. All are deterministic in
/// the input text, so the composite result is `event_response_of` of it.
#[verifier::external_body]
pub(crate) fn decode_event_response(raw: &str) -> (r: Option<Response<Event>>)
    ensures
        r == event_response_of(raw@),
{
    let v: serde_json::Value = serde_json::from_str(raw).ok()?;
    let d = v.get("data")?;
    Some(Response {
        code: v.get("code")?.as_str()?.to_owned(),
        message: v.get("message")?.as_str()?.to_owned(),
        data: Event {
            id: d.get("id")?.as_str()?.to_owned(),
            tag: d.get("tag")?.as_str()?.to_owned(),
            name: d.get("name")?.as_str()?.to_owned(),
            message: d.get("message")?.as_str()?.to_owned(),
            create_time: d.get("createTime")?.as_str()?.to_owned(),
            modify_time: d.get("modifyTime")?.as_str()?.to_owned(),
        },
    })
}

/// Relies on serde_json::from_str::<Value>, Value::get and Value::as_str,
/// as `decode_event_response` does, for the subscriber-shaped envelope.
#[verifier::external_body]
pub(crate) fn decode_subscriber_response(raw: &str) -> (r: Option<Response<Subscriber>>)
    ensures
        r == subscriber_response_of(raw@),
{
    let v: serde_json::Value = serde_json::from_str(raw).ok()?;
    let d = v.get("data")?;
    Some(Response {
        code: v.get("code")?.as_str()?.to_owned(),
        message: v.get("message")?.as_str()?.to_owned(),
        data: Subscriber {
            id: d.get("id")?.as_str()?.to_owned(),
            tag: d.get("tag")?.as_str()?.to_owned(),
            email: d.get("email")?.as_str()?.to_owned(),
        },
    })
}

} // verus!
