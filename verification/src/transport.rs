//! The transport, as the client sees it: a function that performs one HTTP request
//! and hands back the body of the response, or fails.

use simplehttp::simplehttp::SimpleHttpError;
use vstd::prelude::*;

verus! {

#[derive(Debug, Clone, Copy, PartialEq, Eq, Structural)]
pub enum HttpMethod {
    Get,
    Post,
    Delete,
}

/// One HTTP request: the transport performs it and hands back the body of the response.
#[derive(Debug, PartialEq, Eq)]
pub struct HttpRequest {
    pub method: HttpMethod,
    pub url: String,
    /// The headers, each a name and a value, in the order in which they are sent.
    pub headers: Vec<(String, String)>,
    pub body: Option<Vec<u8>>,
}

/// The mathematical model of a request.
pub struct RequestModel {
    pub method: HttpMethod,
    pub url: Seq<char>,
    pub headers: Seq<(Seq<char>, Seq<char>)>,
    pub body: Option<Seq<u8>>,
}

impl View for HttpRequest {
    type V = RequestModel;

    open spec fn view(&self) -> RequestModel {
        RequestModel {
            method: self.method,
            url: self.url@,
            headers: self.headers.deep_view(),
            body: match self.body {
                Some(body) => Some(body@),
                None => None,
            },
        }
    }
}

/// What the transport hands back: the body of the response, or its error.
pub type Answer = Result<Vec<u8>, SimpleHttpError>;

/// Whether the transport may be called with any request of this content.
pub open spec fn accepts<F: FnOnce(HttpRequest) -> Answer>(send: F, request: RequestModel) -> bool {
    forall|sent: HttpRequest| sent@ == request ==> call_requires(send, (sent,))
}

/// Whether the transport was called with a request of this content and gave `outcome`.
pub open spec fn exchanged<F: FnOnce(HttpRequest) -> Answer>(
    send: F,
    request: RequestModel,
    outcome: Answer,
) -> bool {
    exists|sent: HttpRequest| sent@ == request && call_ensures(send, (sent,), outcome)
}

} // verus!
