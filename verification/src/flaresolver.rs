//! The page-fetching service that stands between the assistant and forum
//! pages: what is asked of it, and what is taken from its answer.

use vstd::prelude::*;

verus! {

/// The service, by its address.
#[derive(Debug, Clone)]
pub struct Flaresolver {
    pub url: String,
}

/// A request to fetch one page.
#[derive(Debug, Clone)]
pub struct FlaresolverRequest {
    pub cmd: String,
    pub url: String,
    pub max_timeout: u32,
}

/// The page in the service's answer.
#[derive(Debug, Clone)]
pub struct FlaresolverSolution {
    pub response: String,
}

/// The service's answer.
#[derive(Debug, Clone)]
pub struct FlaresolverResponse {
    pub status: String,
    pub solution: FlaresolverSolution,
}

impl FlaresolverRequest {
    /// The request to fetch `url` within a minute.
    pub fn get(url: String) -> (out: Self)
        ensures
            out.cmd@ == "request.get"@,
            out.url == url,
            out.max_timeout == 60000,
    {
        FlaresolverRequest { cmd: String::from_str("request.get"), url, max_timeout: 60000 }
    }
}

impl Flaresolver {
    pub fn new(url: String) -> (out: Self)
        ensures
            out.url == url,
    {
        Flaresolver { url }
    }

    /// The address that requests are posted to.
    pub fn endpoint(&self) -> (out: String)
        ensures
            out@ == self.url@,
    {
        self.url.clone()
    }

    /// The page that an answer carries: the one in its solution where the
    /// service reports success, and none else.
    pub fn page_of(answer: FlaresolverResponse) -> (out: Option<String>)
        ensures
            out is Some <==> answer.status@ == "ok"@,
            out matches Some(page) ==> page == answer.solution.response,
    {
        if answer.status == String::from_str("ok") {
            Some(answer.solution.response)
        } else {
            None
        }
    }
}

} // verus!
