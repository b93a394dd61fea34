//! Handling a Slack request: the decisions taken between its arrival and the reply.
pub mod orchestrator;
pub mod request_flow;
pub mod reply_service;
