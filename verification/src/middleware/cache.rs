//! The cache rule: responses to `GET` requests may be cached for five minutes.

use crate::validation::same_text;
use vstd::prelude::*;

verus! {

/// Decides the `Cache-Control` header of a response.
pub struct CacheMiddleware;

/// The header value for a request method: `public, max-age=300` for `GET`,
/// none for any other method.
pub open spec fn cache_control_of(method: Seq<char>) -> Option<Seq<char>> {
    if method == "GET"@ {
        Some("public, max-age=300"@)
    } else {
        None
    }
}

impl CacheMiddleware {
    /// The cache rule. It has no settings.
    pub fn new() -> (middleware: Self) {
        CacheMiddleware
    }

    /// The `Cache-Control` value to set on the response to a request with
    /// this method, if any.
    pub fn cache_control(&self, method: &str) -> (value: Option<String>)
        ensures
            value.deep_view() == cache_control_of(method@),
    {
        if same_text(method, "GET") {
            Some("public, max-age=300".to_owned())
        } else {
            None
        }
    }
}

impl Default for CacheMiddleware {
    fn default() -> (middleware: Self) {
        CacheMiddleware::new()
    }
}

} // verus!
