//! Decode targets for the server's replies. The client never constructs
//! these itself; they are filled from a JSON body.

use vstd::prelude::*;

verus! {

/// The expected shape of a successful server reply: a status code string,
/// a message string, and a payload of type `T`.
#[derive(Debug)]
pub struct Response<T> {
    pub code: String,
    pub message: String,
    pub data: T,
}

/// A published event, as the server reports it back. The two timestamps are
/// opaque strings; the client does not parse them.
#[derive(Debug)]
pub struct Event {
    pub id: String,
    pub tag: String,
    pub name: String,
    pub message: String,
    pub create_time: String,
    pub modify_time: String,
}

/// A subscriber record, as the server reports it back.
#[derive(Debug)]
pub struct Subscriber {
    pub id: String,
    pub tag: String,
    pub email: String,
}

} // verus!
