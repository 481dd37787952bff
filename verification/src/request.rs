//! What every request is given on its way: an identifier, and the time that
//! answering it took.

use crate::text::{decimal_u64, digits_of};
use vstd::prelude::*;

verus! {

/// Name of the header that carries the identifier of a request.
pub fn request_id_header() -> (name: &'static str)
    ensures
        name@ == "x-request-id"@,
{
    "x-request-id"
}

/// Name of the header that tells how long the server took.
pub fn server_time_header() -> (name: &'static str)
    ensures
        name@ == "x-server-time"@,
{
    "x-server-time"
}

/// Whether a text has the shape of a version 7 UUID in its hyphenated form:
/// 36 characters with hyphens after the 8th, 13th, 18th and 23rd, and the
/// version right after the second hyphen.
pub open spec fn is_uuid_v7(id: Seq<char>) -> bool {
    id.len() == 36 && id[8] == '-' && id[13] == '-' && id[18] == '-' && id[23] == '-' && id[14]
        == '7'
}

/// Makes a version 7 UUID with `Uuid::now_v7` and writes it out. Trusted: the
/// shape of the text. Which identifier it is depends on the clock and on
/// random numbers.
#[verifier::external_body]
fn uuid_now_v7() -> (id: String)
    ensures
        is_uuid_v7(id@),
{
    uuid::Uuid::now_v7().to_string()
}

/// Makes a new identifier for a request.
pub fn fresh_request_id() -> (id: String)
    ensures
        is_uuid_v7(id@),
{
    uuid_now_v7()
}

/// The maker of request identifiers that the layer for them is given.
#[derive(Debug, Clone, Copy)]
pub struct RequestIdMaker;

impl RequestIdMaker {
    /// Makes the identifier for a request that came without one.
    pub fn make_request_id(&mut self) -> (id: Option<String>)
        ensures
            id matches Some(text) && is_uuid_v7(text@),
    {
        Some(fresh_request_id())
    }
}

/// The identifier of a request: the one it came with, or a new one.
pub fn request_id(given: Option<String>) -> (id: String)
    ensures
        match given {
            Some(given) => id@ == given@,
            None => is_uuid_v7(id@),
        },
{
    match given {
        Some(given) => given,
        None => fresh_request_id(),
    }
}

/// What the header for the time taken says: the milliseconds and `ms`.
pub fn server_time(millis: u64) -> (text: String)
    ensures
        text@ == digits_of(millis as nat) + "ms"@,
{
    let mut text = decimal_u64(millis);
    text.append("ms");
    text
}

/// The layer that puts the time taken on every response.
#[derive(Debug, Clone, Copy)]
pub struct ServerTimeLayer;

/// A service together with the measuring of its time.
#[derive(Debug, Clone)]
pub struct ServerTimeMiddleware<S> {
    pub inner: S,
}

impl ServerTimeLayer {
    /// Wraps a service.
    pub fn layer<S>(&self, inner: S) -> (out: ServerTimeMiddleware<S>)
        ensures
            out.inner == inner,
    {
        ServerTimeMiddleware { inner }
    }
}

impl<S> ServerTimeMiddleware<S> {
    /// What the header of a response says when answering took `millis`
    /// milliseconds.
    pub fn header_value(&self, millis: u64) -> (text: String)
        ensures
            text@ == digits_of(millis as nat) + "ms"@,
    {
        server_time(millis)
    }
}

} // verus!
