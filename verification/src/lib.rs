//! An HTTP request builder and response model for asynchronous clients.
//!
//! A [`Request`] gathers a method, a target, headers, parameters and a body.
//! Finalizing it yields the data a transport engine puts on the wire; a
//! [`Submission`] follows the one exchange to its single outcome, and a
//! [`Response`] holds what came back.
pub mod encoding;
pub mod entry;
pub mod error;
pub mod method;
pub mod multipart;
pub mod request;
pub mod response;
pub mod str;
pub mod submission;
pub mod target;
pub mod text;

pub use encoding::Encoding;
pub use entry::{Header, Param};
pub use error::{EncodeError, RequestError, TransportError, TransportKind};
pub use method::Method;
pub use multipart::Part;
pub use request::{Body, Request, RequestView, WireRequest};
pub use response::{DecodeError, Response};
pub use submission::{Submission, TransportEvent};
pub use target::{Url, UrlError};

use vstd::prelude::*;

verus! {

/// Issue a GET-Request to the specified URL.
pub fn get(url: &Url) -> (r: Request)
    ensures
        r@ == RequestView::fresh(url@, Method::Get),
{
    request(url, Method::Get)
}

/// Issue a DELETE-Request to the specified URL.
pub fn delete(url: &Url) -> (r: Request)
    ensures
        r@ == RequestView::fresh(url@, Method::Delete),
{
    request(url, Method::Delete)
}

/// Issue a POST-Request to the specified URL.
pub fn post(url: &Url) -> (r: Request)
    ensures
        r@ == RequestView::fresh(url@, Method::Post),
{
    request(url, Method::Post)
}

/// Issue a PUT-Request to the specified URL.
pub fn put(url: &Url) -> (r: Request)
    ensures
        r@ == RequestView::fresh(url@, Method::Put),
{
    request(url, Method::Put)
}

/// Issue a request with the specified method to the specified URL.
pub fn request(url: &Url, method: Method) -> (r: Request)
    ensures
        r@ == RequestView::fresh(url@, method),
{
    Request::new(url, method)
}

} // verus!
