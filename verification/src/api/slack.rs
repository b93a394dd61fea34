//! The bodies of the Slack message management endpoints.
use vstd::prelude::*;

verus! {

/// A request to look a bot message up by its permalink.
#[derive(Debug)]
pub struct LookupSlackMessageRequest {
    pub permalink: String,
}

/// A request to edit a bot message.
#[derive(Debug)]
pub struct UpdateSlackMessageRequest {
    pub channel_id: String,
    pub ts: String,
    pub thread_ts: Option<String>,
    pub text: String,
}

/// A request to delete a bot message.
#[derive(Debug)]
pub struct DeleteSlackMessageRequest {
    pub channel_id: String,
    pub ts: String,
    pub thread_ts: Option<String>,
}

/// The answer to a deletion.
#[derive(Debug)]
pub struct DeleteSlackMessageResponse {
    pub deleted: bool,
}


} // verus!
