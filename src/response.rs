//! The values the request handlers answer with. Each carries the id of the
//! worker that handled the request and that worker's request tally.
use vstd::prelude::*;

verus! {

/// Answer to a listing or a clear: every message held afterwards.
pub struct IndexResponse {
    pub server_id: usize,
    pub request_count: usize,
    pub messages: Vec<String>,
}

/// Answer to an accepted post: the text that was appended.
pub struct PostResponse {
    pub server_id: usize,
    pub request_count: usize,
    pub message: String,
}

/// Answer to a lookup: the message at the position, if there is one.
pub struct LookupResponse {
    pub server_id: usize,
    pub request_count: usize,
    pub result: Option<String>,
}

/// Answer to a rejected post body: what was wrong with it.
pub struct PostError {
    pub server_id: usize,
    pub request_count: usize,
    pub error: String,
}

} // verus!
