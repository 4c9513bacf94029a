//! What a run reports for each merge request it opened.
use vstd::prelude::*;

use crate::models;

verus! {

/// A merge request that was opened: its id and its web address.
#[derive(Debug, Clone)]
pub struct MergeRequest {
    pub id: i64,
    pub link: String,
}

impl MergeRequest {
    /// Keeps the id and the web address of the server's answer, unchanged.
    pub fn from_response(response: models::MergeRequest) -> (r: MergeRequest)
        ensures
            r.id == response.id,
            r.link@ == response.web_url@,
    {
        MergeRequest { id: response.id, link: response.web_url }
    }
}

} // verus!
