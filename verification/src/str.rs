//! The request constructors for URLs given as text.
//!
//! The plain constructors are for texts known to be URLs. Their `try_`
//! counterparts take any text: they parse it first, hand it on only where
//! it is a URL, and report it where it is not.
use crate::method::Method;
use crate::request::{Request, RequestView};
use crate::target::{parsed_url, Url, UrlError};
use vstd::prelude::*;

verus! {

/// Parses a text that is a URL.
fn known_url(url: &str) -> (u: Url)
    requires
        parsed_url(url@) is Some,
    ensures
        parsed_url(url@) == Some(u@),
{
    match Url::parse(url) {
        Ok(u) => u,
        Err(_) => vstd::pervasive::unreached(),
    }
}

/// Issue a GET-Request to the specified URL.
pub fn get(url: &str) -> (r: Request)
    requires
        parsed_url(url@) is Some,
    ensures
        r@ == RequestView::fresh(parsed_url(url@)->0, Method::Get),
{
    crate::get(&known_url(url))
}

/// Issue a DELETE-Request to the specified URL.
pub fn delete(url: &str) -> (r: Request)
    requires
        parsed_url(url@) is Some,
    ensures
        r@ == RequestView::fresh(parsed_url(url@)->0, Method::Delete),
{
    crate::delete(&known_url(url))
}

/// Issue a POST-Request to the specified URL.
pub fn post(url: &str) -> (r: Request)
    requires
        parsed_url(url@) is Some,
    ensures
        r@ == RequestView::fresh(parsed_url(url@)->0, Method::Post),
{
    crate::post(&known_url(url))
}

/// Issue a PUT-Request to the specified URL.
pub fn put(url: &str) -> (r: Request)
    requires
        parsed_url(url@) is Some,
    ensures
        r@ == RequestView::fresh(parsed_url(url@)->0, Method::Put),
{
    crate::put(&known_url(url))
}

/// Issue a request with the specified method to the specified URL.
pub fn request(url: &str, method: Method) -> (r: Request)
    requires
        parsed_url(url@) is Some,
    ensures
        r@ == RequestView::fresh(parsed_url(url@)->0, method),
{
    crate::request(&known_url(url), method)
}

/// Whether `r` is what a constructor owes for the text and the method: a
/// fresh request where the text is a URL, and an error where it is not.
pub open spec fn built_from(r: Result<Request, UrlError>, url: Seq<char>, method: Method) -> bool {
    match r {
        Ok(req) => parsed_url(url) matches Some(u) && req@ == RequestView::fresh(u, method),
        Err(_) => parsed_url(url) is None,
    }
}

/// Issue a GET-Request to the URL that the text holds, if it holds one.
pub fn try_get(url: &str) -> (r: Result<Request, UrlError>)
    ensures
        built_from(r, url@, Method::Get),
{
    match Url::parse(url) {
        Ok(_) => Ok(get(url)),
        Err(e) => Err(e),
    }
}

/// Issue a DELETE-Request to the URL that the text holds, if it holds one.
pub fn try_delete(url: &str) -> (r: Result<Request, UrlError>)
    ensures
        built_from(r, url@, Method::Delete),
{
    match Url::parse(url) {
        Ok(_) => Ok(delete(url)),
        Err(e) => Err(e),
    }
}

/// Issue a POST-Request to the URL that the text holds, if it holds one.
pub fn try_post(url: &str) -> (r: Result<Request, UrlError>)
    ensures
        built_from(r, url@, Method::Post),
{
    match Url::parse(url) {
        Ok(_) => Ok(post(url)),
        Err(e) => Err(e),
    }
}

/// Issue a PUT-Request to the URL that the text holds, if it holds one.
pub fn try_put(url: &str) -> (r: Result<Request, UrlError>)
    ensures
        built_from(r, url@, Method::Put),
{
    match Url::parse(url) {
        Ok(_) => Ok(put(url)),
        Err(e) => Err(e),
    }
}

/// Issue a request with the specified method to the URL that the text
/// holds, if it holds one.
pub fn try_request(url: &str, method: Method) -> (r: Result<Request, UrlError>)
    ensures
        built_from(r, url@, method),
{
    match Url::parse(url) {
        Ok(_) => Ok(request(url, method)),
        Err(e) => Err(e),
    }
}

} // verus!
