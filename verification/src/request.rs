//! The HTTP requests that the publisher asks its caller to send.

use vstd::prelude::*;

verus! {

/// The HTTP method of a request.
#[derive(Debug, Clone, Copy, PartialEq, Eq, Structural)]
pub enum Method {
    Get,
    Post,
}

/// One header line beside the bearer authorisation.
#[derive(Debug)]
pub struct Header {
    pub name: String,
    pub value: String,
}

/// A request to the backend, ready to be sent. Every request is authorised
/// with a bearer token.
#[derive(Debug)]
pub struct Request {
    pub method: Method,
    pub url: String,
    pub bearer: String,
    pub headers: Vec<Header>,
    pub body: Option<String>,
}

/// A header as a mathematical value.
pub struct HeaderView {
    pub name: Seq<char>,
    pub value: Seq<char>,
}

/// A request as a mathematical value.
pub struct RequestView {
    pub method: Method,
    pub url: Seq<char>,
    pub bearer: Seq<char>,
    pub headers: Seq<HeaderView>,
    pub body: Option<Seq<char>>,
}

impl View for Header {
    type V = HeaderView;

    open spec fn view(&self) -> HeaderView {
        HeaderView { name: self.name@, value: self.value@ }
    }
}

impl View for Request {
    type V = RequestView;

    open spec fn view(&self) -> RequestView {
        RequestView {
            method: self.method,
            url: self.url@,
            bearer: self.bearer@,
            headers: self.headers@.map_values(|header: Header| header@),
            body: match self.body {
                Some(body) => Some(body@),
                None => None,
            },
        }
    }
}

impl Request {
    /// A request without a body and with the given headers.
    pub fn get(url: &str, bearer: &String, headers: Vec<Header>) -> (request: Request)
        ensures
            request@ == (RequestView {
                method: Method::Get,
                url: url@,
                bearer: bearer@,
                headers: headers@.map_values(|header: Header| header@),
                body: None,
            }),
    {
        Request {
            method: Method::Get,
            url: url.to_owned(),
            bearer: bearer.clone(),
            headers,
            body: None,
        }
    }

    /// A request that posts `body` with the given headers.
    pub fn post(url: &str, bearer: &String, headers: Vec<Header>, body: String) -> (request:
        Request)
        ensures
            request@ == (RequestView {
                method: Method::Post,
                url: url@,
                bearer: bearer@,
                headers: headers@.map_values(|header: Header| header@),
                body: Some(body@),
            }),
    {
        Request {
            method: Method::Post,
            url: url.to_owned(),
            bearer: bearer.clone(),
            headers,
            body: Some(body),
        }
    }
}

} // verus!
