//! The response renderer: a raw reply body is decoded into the envelope
//! shape the operation expects; when decoding fails the raw text is kept
//! unchanged, so the caller always has something to show.

use crate::domain::{Event, Response, Subscriber};
use crate::json::{
    decode_event_response, decode_subscriber_response, event_response_of, subscriber_response_of,
};
use vstd::prelude::*;

verus! {

/// The two-branch outcome of rendering: a structured value when the body
/// decoded, the raw body verbatim when it did not.
#[derive(Debug)]
pub enum Rendered<T> {
    Structured(Response<T>),
    Raw(String),
}

/// Chooses the branch for a decode outcome: a decoded value is kept as-is,
/// and a failed decode falls back to the raw body unchanged.
pub fn render_decoded<T>(raw: &str, decoded: Option<Response<T>>) -> (r: Rendered<T>)
    ensures
        (match decoded {
            Some(resp) => r == Rendered::Structured(resp),
            None => r matches Rendered::Raw(s) && s@ == raw@,
        }),
{
    match decoded {
        Some(resp) => Rendered::Structured(resp),
        None => Rendered::Raw(raw.to_owned()),
    }
}

/// Renders a reply body expected to wrap an `Event`: structured exactly
/// when the body decodes as `Response<Event>`, the raw text otherwise.
pub fn render_event(raw: &str) -> (r: Rendered<Event>)
    ensures
        (match event_response_of(raw@) {
            Some(resp) => r == Rendered::Structured(resp),
            None => r matches Rendered::Raw(s) && s@ == raw@,
        }),
{
    let decoded = decode_event_response(raw);
    render_decoded(raw, decoded)
}

/// Renders a reply body expected to wrap a `Subscriber`: structured exactly
/// when the body decodes as `Response<Subscriber>`, the raw text otherwise.
pub fn render_subscriber(raw: &str) -> (r: Rendered<Subscriber>)
    ensures
        (match subscriber_response_of(raw@) {
            Some(resp) => r == Rendered::Structured(resp),
            None => r matches Rendered::Raw(s) && s@ == raw@,
        }),
{
    let decoded = decode_subscriber_response(raw);
    render_decoded(raw, decoded)
}

} // verus!
