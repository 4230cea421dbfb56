//! Execution core of a load-testing library.
//!
//! - `request` and `headers`: the request/response model and its validating
//!   builders.
//! - `transport`: what a GET fetch needs from a URL, and how a fetched body
//!   becomes text.
//! - `executor`: how a request is routed to the transport and how the
//!   transport's answer becomes a response or an error, as an executor and as
//!   a scenario sees it.
//! - `scenario`: scenarios in registration order, and the fail-fast order in
//!   which a run invokes them.
pub mod error;
pub mod executor;
pub mod headers;
pub mod request;
pub mod scenario;
pub mod transport;

pub use error::Error;
pub use request::{Request, Response};
