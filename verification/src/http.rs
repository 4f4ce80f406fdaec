//! Plain values that stand for HTTP requests and their answers. The
//! engine says what to ask for and judges what came back; sending is the
//! caller's business.

use crate::error::{ErrorKind, FetchError};
use crate::text::{decimal, push_decimal};
use vstd::prelude::*;
use vstd::string::StringExecFns;

verus! {

/// The client identification sent with every request.
pub const USER_AGENT: &'static str = "ArtDisplay/0.1 (Desktop Art Viewer)";

/// A name with its value: one query parameter, or one header.
#[derive(Debug)]
pub struct Param {
    pub name: String,
    pub value: String,
}

impl View for Param {
    type V = (Seq<char>, Seq<char>);

    open spec fn view(&self) -> (Seq<char>, Seq<char>) {
        (self.name@, self.value@)
    }
}

impl Param {
    /// The parameter `name` with the value `value`.
    pub fn new(name: &str, value: &str) -> (param: Param)
        ensures
            param@ == (name@, value@),
    {
        Param { name: name.to_owned(), value: value.to_owned() }
    }
}

/// The views of a list of parameters.
pub open spec fn param_views(params: Seq<Param>) -> Seq<(Seq<char>, Seq<char>)> {
    params.map_values(|p: Param| p@)
}

/// A GET request: where to, with which query parameters and which headers
/// beyond the client identification.
#[derive(Debug)]
pub struct Request {
    pub url: String,
    pub query: Vec<Param>,
    pub headers: Vec<Param>,
}

/// What a [`Request`] says.
pub struct RequestView {
    pub url: Seq<char>,
    pub query: Seq<(Seq<char>, Seq<char>)>,
    pub headers: Seq<(Seq<char>, Seq<char>)>,
}

impl View for Request {
    type V = RequestView;

    open spec fn view(&self) -> RequestView {
        RequestView {
            url: self.url@,
            query: param_views(self.query@),
            headers: param_views(self.headers@),
        }
    }
}

/// Whether a status code reports success.
pub open spec fn is_success(status: u16) -> bool {
    200 <= status < 300
}

/// Whether a status code reports success.
pub fn status_is_success(status: u16) -> (b: bool)
    ensures
        b == is_success(status),
{
    200 <= status && status < 300
}

/// The answer to a request for a record of type `T`.
#[derive(Debug)]
pub enum JsonReply<T> {
    /// No response arrived. The text says why.
    Unreachable(String),
    /// A response arrived with this status. Its body was read as a `T`, or
    /// could not be, and then the text says why.
    Response(u16, Result<T, String>),
}

/// The record that a reply holds: it is there if the response reports
/// success and its body could be read.
pub open spec fn parsed<T>(reply: JsonReply<T>) -> Option<T> {
    match reply {
        JsonReply::Response(status, Ok(record)) if is_success(status) => Some(record),
        _ => None,
    }
}

/// The failure that `reply` stands for, by kind and message, if it holds
/// no record. No response, or one that reports no success, is a network
/// failure; a body that could not be read is a parse failure. `failed`
/// and `unreadable` begin the message of the one and the other.
pub open spec fn reply_failure<T>(
    reply: JsonReply<T>,
    failed: Seq<char>,
    unreadable: Seq<char>,
) -> Option<(ErrorKind, Seq<char>)> {
    match reply {
        JsonReply::Unreachable(why) => Some((ErrorKind::Network, failed + why@)),
        JsonReply::Response(status, body) => if !is_success(status) {
            Some((ErrorKind::Network, failed + "HTTP status "@ + decimal(status as nat)))
        } else {
            match body {
                Ok(_) => None,
                Err(why) => Some((ErrorKind::Parse, unreadable + why@)),
            }
        },
    }
}

/// `first` followed by `second`.
pub fn join(first: &str, second: &str) -> (joined: String)
    ensures
        joined@ == first@ + second@,
{
    let mut joined = first.to_owned();
    joined.append(second);
    joined
}

/// Reads a reply: the record it holds, or the failure it stands for.
pub fn read_reply<T>(reply: JsonReply<T>, failed: &str, unreadable: &str) -> (result: Result<
    T,
    FetchError,
>)
    ensures
        match result {
            Ok(record) => parsed(reply) == Some(record),
            Err(e) => parsed(reply) is None && reply_failure(reply, failed@, unreadable@) == Some(
                (e.kind(), e.text()),
            ),
        },
{
    match reply {
        JsonReply::Unreachable(why) => Err(FetchError::Network(join(failed, why.as_str()))),
        JsonReply::Response(status, body) => {
            if !status_is_success(status) {
                let mut message = join(failed, "HTTP status ");
                push_decimal(&mut message, status as u64);
                Err(FetchError::Network(message))
            } else {
                match body {
                    Ok(record) => Ok(record),
                    Err(why) => Err(FetchError::Parse(join(unreadable, why.as_str()))),
                }
            }
        },
    }
}

/// The answer to a request for an image.
#[derive(Debug)]
pub enum ImageReply {
    /// No response arrived, or its body could not be read.
    Unreachable,
    /// A response arrived. `content_type` is the value of its
    /// `Content-Type` header, empty if it has none that is text.
    Response { status: u16, content_type: String, body: Vec<u8> },
}

} // verus!
