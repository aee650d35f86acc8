//! Requests and responses as plain values.

use crate::common::Pairs;
use crate::header::HeaderSet;
use crate::simple_http::{
    dispatched, effective_timeout, BaseClient, Interceptor, SimpleHTTP, SimpleHTTPResponse,
};
use vstd::prelude::*;

verus! {

/// A request as it is handed to a transport.
#[derive(Debug)]
pub struct Request {
    /// The method, as it is written on the wire: `GET`, `POST`, ...
    pub method: String,
    /// The locator: an absolute URL, or a path.
    pub uri: String,
    pub headers: HeaderSet,
    pub body: Vec<u8>,
}

/// The mathematical content of a request.
pub struct RequestView {
    pub method: Seq<char>,
    pub uri: Seq<char>,
    pub headers: Pairs,
    pub body: Seq<u8>,
}

impl View for Request {
    type V = RequestView;

    open spec fn view(&self) -> RequestView {
        RequestView {
            method: self.method@,
            uri: self.uri@,
            headers: self.headers@,
            body: self.body@,
        }
    }
}

impl Request {
    /// A request for the path `/` with the method `GET`, no header, and `body`.
    pub fn new(body: Vec<u8>) -> (r: Self)
        ensures
            r@ == (RequestView {
                method: "GET"@,
                uri: "/"@,
                headers: Seq::<(Seq<char>, Seq<char>)>::empty(),
                body: body@,
            }),
    {
        Request { method: "GET".to_owned(), uri: "/".to_owned(), headers: HeaderSet::new(), body }
    }
}

/// A response as a transport hands it back.
#[derive(Debug)]
pub struct Response {
    pub status: u16,
    /// Every header of the response, name first, its value as the bytes that
    /// came, in the order in which the transport gave them. A name may occur
    /// more than once.
    pub headers: Vec<(String, Vec<u8>)>,
    pub body: Vec<u8>,
}

/// What a transport reports when the exchange failed: a refused connection, a
/// reset, a name that does not resolve.
#[derive(Debug)]
pub struct TransportError {
    pub details: String,
}

/// What a transport that came back in time reports.
pub type TransportResult = Result<Response, TransportError>;

/// The request with that method, locator and body, and no header.
pub open spec fn plain_request(method: Seq<char>, uri: Seq<char>, body: Seq<u8>) -> RequestView {
    RequestView { method, uri, headers: Seq::<(Seq<char>, Seq<char>)>::empty(), body }
}

/// What the dispatch of the plain request with that method, locator and body may return.
pub open spec fn sent_plain<C: BaseClient<Request, TransportResult>, I: Interceptor<Request>>(
    http: SimpleHTTP<Request, TransportResult, C, I>,
    method: Seq<char>,
    uri: Seq<char>,
    body: Seq<u8>,
    result: SimpleHTTPResponse<TransportResult>,
) -> bool {
    exists|request: Request|
        request@ == plain_request(method, uri, body) && #[trigger] dispatched(
            http.interceptors@,
            http.client,
            effective_timeout(http.timeout_millisecond),
            request,
            result,
        )
}

impl<C: BaseClient<Request, TransportResult>, I: Interceptor<Request>> SimpleHTTP<
    Request,
    TransportResult,
    C,
    I,
> {
    /// Dispatches the plain request with that method, locator and body.
    pub fn send(&self, method: &str, uri: String, body: Vec<u8>) -> (r: SimpleHTTPResponse<
        TransportResult,
    >)
        ensures
            sent_plain(*self, method@, uri@, body@, r),
    {
        let request = Request { method: method.to_owned(), uri, headers: HeaderSet::new(), body };
        let r = self.request(request);
        proof {
            assert(request@ == plain_request(method@, uri@, body@) && dispatched(
                self.interceptors@,
                self.client,
                effective_timeout(self.timeout_millisecond),
                request,
                r,
            ));
        }
        r
    }

    pub fn get(&self, uri: String) -> (r: SimpleHTTPResponse<TransportResult>)
        ensures
            sent_plain(*self, "GET"@, uri@, Seq::<u8>::empty(), r),
    {
        self.send("GET", uri, Vec::new())
    }

    pub fn head(&self, uri: String) -> (r: SimpleHTTPResponse<TransportResult>)
        ensures
            sent_plain(*self, "HEAD"@, uri@, Seq::<u8>::empty(), r),
    {
        self.send("HEAD", uri, Vec::new())
    }

    pub fn option(&self, uri: String) -> (r: SimpleHTTPResponse<TransportResult>)
        ensures
            sent_plain(*self, "OPTIONS"@, uri@, Seq::<u8>::empty(), r),
    {
        self.send("OPTIONS", uri, Vec::new())
    }

    pub fn delete(&self, uri: String) -> (r: SimpleHTTPResponse<TransportResult>)
        ensures
            sent_plain(*self, "DELETE"@, uri@, Seq::<u8>::empty(), r),
    {
        self.send("DELETE", uri, Vec::new())
    }

    pub fn post(&self, uri: String, body: Vec<u8>) -> (r: SimpleHTTPResponse<TransportResult>)
        ensures
            sent_plain(*self, "POST"@, uri@, body@, r),
    {
        self.send("POST", uri, body)
    }

    pub fn put(&self, uri: String, body: Vec<u8>) -> (r: SimpleHTTPResponse<TransportResult>)
        ensures
            sent_plain(*self, "PUT"@, uri@, body@, r),
    {
        self.send("PUT", uri, body)
    }

    pub fn patch(&self, uri: String, body: Vec<u8>) -> (r: SimpleHTTPResponse<TransportResult>)
        ensures
            sent_plain(*self, "PATCH"@, uri@, body@, r),
    {
        self.send("PATCH", uri, body)
    }
}

} // verus!
