//! Data model of request rewriting and response mocking. The rewriting
//! itself happens in the shell; the core only defines the records.

use vstd::prelude::*;

verus! {

/// Request-rewriting front end. Stateless.
pub struct NetworkTools;

/// Header edits to apply to outbound requests.
#[derive(Debug, Clone)]
pub struct HeaderModifications {
    pub add: Vec<(String, String)>,
    pub remove: Vec<String>,
    pub modify: Vec<(String, String)>,
}

/// A canned response served in place of the network.
#[derive(Debug, Clone)]
pub struct MockResponse {
    pub url_pattern: String,
    pub status: u16,
    pub headers: Vec<(String, String)>,
    pub body: String,
}

} // verus!
