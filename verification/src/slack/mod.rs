//! Slack text markup, thread normalisation, permalinks, Web API answers and the
//! Socket Mode event types.
use vstd::prelude::*;

pub mod formatter;
pub mod message_manager;
pub mod socket_mode;
pub mod thread_context;
pub mod web_api;

verus! {

/// A Socket Mode envelope.
#[derive(Debug)]
pub struct SlackEventEnvelope {
    pub envelope_id: String,
    pub envelope_type: String,
    pub payload: SlackEnvelopePayload,
}

/// The payload of an Events API envelope.
#[derive(Debug)]
pub struct SlackEnvelopePayload {
    pub event_id: String,
    pub team_id: Option<String>,
    pub event: SlackMessageEvent,
}

/// A message event, such as an app mention.
#[derive(Debug)]
pub struct SlackMessageEvent {
    pub event_type: String,
    pub user: Option<String>,
    pub text: Option<String>,
    pub channel: Option<String>,
    pub ts: Option<String>,
    pub thread_ts: Option<String>,
}

} // verus!
