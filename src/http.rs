//! Responses of outgoing HTTP calls.
use vstd::prelude::*;
use std::collections::HashMap;

verus! {

/// A response: status, headers and body.
pub struct HttpResponse<T> {
    pub status_code: u16,
    pub headers: HashMap<String, String>,
    pub body: T,
}

impl<T> HttpResponse<T> {
    pub fn new(status_code: u16, headers: HashMap<String, String>, body: T) -> (r: HttpResponse<T>)
        ensures
            r.status_code == status_code,
            r.headers == headers,
            r.body == body,
    {
        HttpResponse { status_code, headers, body }
    }

    /// A 2xx status.
    pub fn is_success(&self) -> (r: bool)
        ensures
            r == (200 <= self.status_code < 300),
    {
        self.status_code >= 200 && self.status_code < 300
    }

    /// A 4xx status.
    pub fn is_client_error(&self) -> (r: bool)
        ensures
            r == (400 <= self.status_code < 500),
    {
        self.status_code >= 400 && self.status_code < 500
    }

    /// A 5xx status.
    pub fn is_server_error(&self) -> (r: bool)
        ensures
            r == (500 <= self.status_code < 600),
    {
        self.status_code >= 500 && self.status_code < 600
    }
}

} // verus!
