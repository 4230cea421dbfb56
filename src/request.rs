use vstd::prelude::*;

use crate::headers::Headers;

verus! {

/// A request handed to the executor; one variant per protocol.
#[derive(Debug)]
pub enum Request {
    /// An HTTP request.
    Http(HttpRequest),
}

/// An HTTP request.
#[derive(Debug)]
pub struct HttpRequest {
    /// The HTTP method to use.
    pub method: Method,
    /// The URL to send the request to.
    pub url: String,
    /// The headers to send with the request.
    pub headers: Headers,
}

impl HttpRequest {
    /// Starts a GET request for `url`; it is checked by `build`.
    pub fn get(url: &str) -> (r: Self)
        ensures
            r.method == Method::Get,
            r.url@ == url@,
            r.headers@ == Map::<Seq<char>, Seq<char>>::empty(),
    {
        HttpRequest { method: Method::Get, url: url.to_owned(), headers: Headers::new() }
    }

    /// Sets the header `key` to `value`, replacing an earlier value of that name.
    pub fn header(self, key: &str, value: &str) -> (r: Self)
        ensures
            r.method == self.method,
            r.url == self.url,
            r.headers@ == self.headers@.insert(key@, value@),
    {
        let HttpRequest { method, url, headers } = self;
        HttpRequest { method, url, headers: headers.insert(key.to_owned(), value.to_owned()) }
    }

    /// Checks the request: it fails exactly when the URL is empty.
    pub fn build(self) -> (r: Result<Self, HttpRequestError>)
        ensures
            r is Err <==> self.url@.len() == 0,
            r matches Ok(v) ==> v == self,
            r matches Err(e) ==> e == HttpRequestError::InvalidUrl,
    {
        if self.url.as_str().is_empty() {
            return Err(HttpRequestError::InvalidUrl);
        }
        Ok(self)
    }
}

/// Setting a header twice under one name keeps only the second value.
pub proof fn header_keeps_last_value(
    request: HttpRequest,
    key: Seq<char>,
    first: Seq<char>,
    second: Seq<char>,
)
    ensures
        request.headers@.insert(key, first).insert(key, second) == request.headers@.insert(
            key,
            second,
        ),
{
    assert(request.headers@.insert(key, first).insert(key, second) =~= request.headers@.insert(
        key,
        second,
    ));
}

/// The HTTP method to use.
#[derive(Debug, PartialEq, Eq, Structural)]
pub enum Method {
    /// The GET method.
    Get,
    /// The POST method.
    Post,
}

/// The error that can occur when building an HTTP request.
#[derive(Debug, PartialEq, Eq, Structural)]
pub enum HttpRequestError {
    /// The URL is empty.
    InvalidUrl,
}

/// A response from the executor; one variant per protocol.
#[derive(Debug, PartialEq, Eq)]
pub enum Response {
    /// An HTTP response.
    Http(HttpResponse),
}

/// An HTTP response.
#[derive(Debug, PartialEq, Eq)]
pub struct HttpResponse {
    /// The status code of the response.
    pub status: u16,
    /// The headers of the response.
    pub headers: Headers,
    /// The body of the response.
    pub body: String,
}

/// A builder for HTTP responses.
#[derive(Debug)]
pub struct HttpResponseBuilder {
    status: Option<u16>,
    headers: Headers,
    body: Option<String>,
}

impl Default for HttpResponseBuilder {
    /// The same as `HttpResponseBuilder::new`.
    fn default() -> (r: Self)
        ensures
            r.status_set() is None,
            r.headers_set() == Map::<Seq<char>, Seq<char>>::empty(),
            r.body_set() is None,
    {
        HttpResponseBuilder::new()
    }
}

/// The error that can occur when building an HTTP response.
#[derive(Debug, PartialEq, Eq, Structural)]
pub enum BuildHttpResponseError {
    /// No status was set.
    MissingStatus,
}

/// The body a builder produces: the one set, or empty text.
pub open spec fn body_or_empty(body: Option<Seq<char>>) -> Seq<char> {
    match body {
        Some(b) => b,
        None => Seq::empty(),
    }
}

impl HttpResponseBuilder {
    /// The status set so far.
    pub closed spec fn status_set(&self) -> Option<u16> {
        self.status
    }

    /// The headers inserted so far.
    pub closed spec fn headers_set(&self) -> Map<Seq<char>, Seq<char>> {
        self.headers@
    }

    /// The body set so far.
    pub closed spec fn body_set(&self) -> Option<Seq<char>> {
        match self.body {
            Some(b) => Some(b@),
            None => None,
        }
    }

    /// A builder with no status, no headers and no body.
    pub fn new() -> (r: Self)
        ensures
            r.status_set() is None,
            r.headers_set() == Map::<Seq<char>, Seq<char>>::empty(),
            r.body_set() is None,
    {
        HttpResponseBuilder { status: None, headers: Headers::new(), body: None }
    }

    /// Sets the status code.
    pub fn status(self, status: u16) -> (r: Self)
        ensures
            r.status_set() == Some(status),
            r.headers_set() == self.headers_set(),
            r.body_set() == self.body_set(),
    {
        HttpResponseBuilder { status: Some(status), ..self }
    }

    /// Sets the header `key` to `value`, replacing an earlier value of that name.
    pub fn insert_header(self, key: &str, value: &str) -> (r: Self)
        ensures
            r.status_set() == self.status_set(),
            r.headers_set() == self.headers_set().insert(key@, value@),
            r.body_set() == self.body_set(),
    {
        let HttpResponseBuilder { status, headers, body } = self;
        HttpResponseBuilder {
            status,
            headers: headers.insert(key.to_owned(), value.to_owned()),
            body,
        }
    }

    /// Sets the body.
    pub fn body(self, body: &str) -> (r: Self)
        ensures
            r.status_set() == self.status_set(),
            r.headers_set() == self.headers_set(),
            r.body_set() == Some(body@),
    {
        HttpResponseBuilder { body: Some(body.to_owned()), ..self }
    }

    /// Builds the response: it fails exactly when no status was set, and the
    /// body is empty text unless one was set.
    pub fn build(self) -> (r: Result<HttpResponse, BuildHttpResponseError>)
        ensures
            r is Err <==> self.status_set() is None,
            r matches Err(e) ==> e == BuildHttpResponseError::MissingStatus,
            r matches Ok(resp) ==> {
                &&& Some(resp.status) == self.status_set()
                &&& resp.headers@ == self.headers_set()
                &&& resp.body@ == body_or_empty(self.body_set())
            },
    {
        let HttpResponseBuilder { status, headers, body } = self;
        let status = match status {
            Some(s) => s,
            None => {
                return Err(BuildHttpResponseError::MissingStatus);
            },
        };
        let body = match body {
            Some(b) => b,
            None => String::new(),
        };
        Ok(HttpResponse { status, headers, body })
    }
}

} // verus!
