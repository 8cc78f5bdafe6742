//! Data model of developer-tools observations. Timestamps are plain
//! epoch milliseconds; the shell converts to and from calendar dates and
//! performs the actual inspection calls.

use vstd::prelude::*;

verus! {

/// One request as the developer tools saw it. `timestamp` is epoch
/// milliseconds.
#[derive(Debug, Clone)]
pub struct NetworkRequest {
    pub url: String,
    pub method: String,
    pub headers: Vec<(String, String)>,
    pub timestamp: u64,
}

/// One console line. `timestamp` is epoch milliseconds.
#[derive(Debug, Clone)]
pub struct ConsoleLog {
    pub level: String,
    pub message: String,
    pub timestamp: u64,
    pub source: String,
}

} // verus!
