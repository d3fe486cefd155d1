//! What an endpoint answers: a status code and a body.

use vstd::prelude::*;
use crate::models::{DID, Record};

verus! {

/// 200 OK.
pub const OK: u16 = 200;

/// 201 Created.
pub const CREATED: u16 = 201;

/// 404 Not Found.
pub const NOT_FOUND: u16 = 404;

/// 500 Internal Server Error.
pub const INTERNAL_SERVER_ERROR: u16 = 500;

/// The JSON body of a successful create: the identifier that was minted.
#[derive(Debug, PartialEq, Eq)]
pub struct DIDResponse {
    pub id: String,
}

/// The body of a response. `Text` is sent as plain text, the others as JSON.
#[derive(Debug, PartialEq, Eq)]
pub enum Body {
    Text(String),
    Created(DIDResponse),
    Record(DID),
    Records(Vec<DID>),
}

/// A status code and a body, ready to be sent.
#[derive(Debug, PartialEq, Eq)]
pub struct Response {
    pub status: u16,
    pub body: Body,
}

/// What a [`Body`] is, mathematically.
pub enum Content {
    Text(Seq<char>),
    Created(Seq<char>),
    Record(Record),
    Records(Seq<Record>),
}

/// What a [`Response`] is, mathematically.
pub struct Reply {
    pub status: u16,
    pub content: Content,
}

/// The records that a sequence of [`DID`] values stands for, in order.
pub open spec fn records_of(dids: Seq<DID>) -> Seq<Record> {
    dids.map_values(|did: DID| did@)
}

impl View for Body {
    type V = Content;

    open spec fn view(&self) -> Content {
        match *self {
            Body::Text(text) => Content::Text(text@),
            Body::Created(created) => Content::Created(created.id@),
            Body::Record(did) => Content::Record(did@),
            Body::Records(dids) => Content::Records(records_of(dids@)),
        }
    }
}

impl View for Response {
    type V = Reply;

    open spec fn view(&self) -> Reply {
        Reply { status: self.status, content: self.body@ }
    }
}

/// A plain-text reply.
pub open spec fn text_reply(status: u16, text: Seq<char>) -> Reply {
    Reply { status, content: Content::Text(text) }
}

impl Response {
    /// A plain-text response with the given status.
    pub fn text(status: u16, text: &str) -> (response: Response)
        ensures
            response@ == text_reply(status, text@),
    {
        Response { status, body: Body::Text(text.to_owned()) }
    }
}

} // verus!
