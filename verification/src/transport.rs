//! Requests and replies as plain values, for a driver to carry over HTTP.

use vstd::prelude::*;
use crate::json::{Json, JsonModel};

verus! {

/// The root of the service's API. Every request path is appended to it.
pub const BASE_URL: &'static str = "https://api.github.com/";

/// The HTTP method of a request.
#[derive(Debug, Clone, Copy, PartialEq, Eq, Structural)]
pub enum Method {
    Get,
    Patch,
}

/// One request for the driver to send.
#[derive(Debug, PartialEq, Eq)]
pub struct Request {
    pub method: Method,
    pub url: String,
    /// The JSON document to send as the body, if the request has one.
    pub body: Option<Json>,
}

/// The mathematical value of a [`Request`].
pub struct RequestModel {
    pub method: Method,
    pub url: Seq<char>,
    pub body: Option<JsonModel>,
}

impl View for Request {
    type V = RequestModel;

    open spec fn view(&self) -> RequestModel {
        RequestModel {
            method: self.method,
            url: self.url@,
            body: match self.body {
                Some(doc) => Some(doc@),
                None => None,
            },
        }
    }
}

/// What the service answered.
#[derive(Debug, PartialEq, Eq)]
pub struct Response {
    pub status: u16,
    pub body: Vec<u8>,
}

/// How an exchange with the service ended.
#[derive(Debug, PartialEq, Eq)]
pub enum Reply {
    /// A response arrived.
    Received(Response),
    /// No response arrived; `detail` is the transport's description.
    Failed { detail: String },
}

/// The mathematical value of a [`Reply`].
pub enum ReplyModel {
    Received { status: u16, body: Seq<u8> },
    Failed { detail: Seq<char> },
}

impl View for Reply {
    type V = ReplyModel;

    open spec fn view(&self) -> ReplyModel {
        match self {
            Reply::Received(response) => ReplyModel::Received {
                status: response.status,
                body: response.body@,
            },
            Reply::Failed { detail } => ReplyModel::Failed { detail: detail@ },
        }
    }
}

impl Clone for Response {
    fn clone(&self) -> (copy: Self)
        ensures
            copy.status == self.status,
            copy.body@ == self.body@,
    {
        Response { status: self.status, body: self.body.clone() }
    }
}

impl Clone for Reply {
    fn clone(&self) -> (copy: Self)
        ensures
            copy@ == self@,
    {
        match self {
            Reply::Received(response) => Reply::Received(response.clone()),
            Reply::Failed { detail } => Reply::Failed { detail: detail.clone() },
        }
    }
}

/// Whether a status code is in the success class, 200 to 299.
pub open spec fn status_is_success(status: u16) -> bool {
    200 <= status < 300
}

/// Whether a status code is in the success class, 200 to 299.
pub fn is_success(status: u16) -> (ok: bool)
    ensures
        ok == status_is_success(status),
{
    200 <= status && status < 300
}

} // verus!
