//! Relay: policy enforcement, workflow selection, thread normalisation and task
//! orchestration decisions for a Slack-driven Codex control plane.
pub mod text;
pub mod api;
pub mod policies;
pub mod slack;
pub mod db;
pub mod workflows;
pub mod runner;
pub mod config;
pub mod workspaces;
pub mod tasks;
pub mod environments;
pub mod terminal;
