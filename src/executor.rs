use vstd::prelude::*;

use crate::error::Error;
use crate::request::{
    BuildHttpResponseError, HttpRequestError, HttpResponseBuilder, Request, Response,
};
use crate::transport::HttpError;

verus! {

/// The errors of the request executor; each wraps exactly one cause.
#[derive(Debug)]
pub enum RequestExecutorError {
    /// A request failed its own validation.
    HttpRequestBuild(HttpRequestError),
    /// A response could not be assembled.
    HttpResponseBuild(BuildHttpResponseError),
    /// The transport failed to fetch the resource.
    FailedExecution(HttpError),
}

/// The status code every fetched HTTP response carries.
pub const FETCHED_STATUS: u16 = 200;

/// The URL the transport is asked to fetch for `request`.
pub open spec fn fetch_url_of(request: Request) -> Seq<char> {
    match request {
        Request::Http(h) => h.url@,
    }
}

/// What the executor answers once the transport has returned `fetched`: a
/// fetched text becomes an HTTP response with status 200, no headers and the
/// text as body; a transport failure is wrapped as `FailedExecution`.
pub open spec fn completes_as(
    fetched: Result<String, HttpError>,
    r: Result<Response, RequestExecutorError>,
) -> bool {
    match fetched {
        Ok(text) => r matches Ok(Response::Http(h)) && h.status == FETCHED_STATUS
            && h.headers@ == Map::<Seq<char>, Seq<char>>::empty() && h.body@ == text@,
        Err(e) => r == Err::<Response, RequestExecutorError>(
            RequestExecutorError::FailedExecution(e),
        ),
    }
}

/// What the context hands a scenario for an executor result `r`: a response
/// unchanged, and any executor error as `FailedRequestExecution`.
pub open spec fn collapses_as(
    r: Result<Response, RequestExecutorError>,
    out: Result<Response, Error>,
) -> bool {
    match r {
        Ok(resp) => out == Ok::<Response, Error>(resp),
        Err(_) => out == Err::<Response, Error>(Error::FailedRequestExecution),
    }
}

/// The URL to fetch for a request, chosen by its protocol.
pub fn fetch_url(request: &Request) -> (r: String)
    ensures
        r@ == fetch_url_of(*request),
{
    match request {
        Request::Http(h) => h.url.clone(),
    }
}

/// Assembles the executor's answer from what the transport returned.
pub fn complete(fetched: Result<String, HttpError>) -> (r: Result<Response, RequestExecutorError>)
    ensures
        completes_as(fetched, r),
{
    match fetched {
        Ok(text) => {
            let built = HttpResponseBuilder::new().status(FETCHED_STATUS).body(text.as_str()).build();
            match built {
                Ok(h) => Ok(Response::Http(h)),
                Err(e) => Err(RequestExecutorError::HttpResponseBuild(e)),
            }
        },
        Err(e) => Err(RequestExecutorError::FailedExecution(e)),
    }
}

/// Turns an executor result into what a scenario sees: the response passes
/// through, and every executor error becomes `FailedRequestExecution`.
pub fn collapse(r: Result<Response, RequestExecutorError>) -> (out: Result<Response, Error>)
    ensures
        collapses_as(r, out),
{
    match r {
        Ok(resp) => Ok(resp),
        Err(_) => Err(Error::FailedRequestExecution),
    }
}

/// A transport failure reaches the executor's caller as `FailedExecution`
/// wrapping that same failure, and reaches a scenario as
/// `FailedRequestExecution`, with nothing of the cause left.
pub proof fn transport_failure_collapses(
    e: HttpError,
    r: Result<Response, RequestExecutorError>,
    out: Result<Response, Error>,
)
    requires
        completes_as(Err(e), r),
        collapses_as(r, out),
    ensures
        r == Err::<Response, RequestExecutorError>(RequestExecutorError::FailedExecution(e)),
        out == Err::<Response, Error>(Error::FailedRequestExecution),
{
}

/// A fetched text reaches a scenario as an HTTP response with status 200, no
/// headers and that text as body.
pub proof fn fetched_text_reaches_scenario(
    text: String,
    r: Result<Response, RequestExecutorError>,
    out: Result<Response, Error>,
)
    requires
        completes_as(Ok(text), r),
        collapses_as(r, out),
    ensures
        out matches Ok(Response::Http(h)) && h.status == FETCHED_STATUS && h.headers@ == Map::<
            Seq<char>,
            Seq<char>,
        >::empty() && h.body@ == text@,
{
}

} // verus!
