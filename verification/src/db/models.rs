//! Environments and sessions, as stored. Timestamps are RFC 3339 texts.
use vstd::prelude::*;

verus! {

/// A repository environment that tasks can run in.
#[derive(Debug)]
pub struct Environment {
    pub id: String,
    pub name: String,
    pub slug: String,
    pub git_ssh_url: String,
    pub default_branch: String,
    /// A JSON array of alias strings.
    pub aliases: String,
    pub enabled: bool,
    pub source_sync_status: String,
    pub source_sync_error: Option<String>,
    pub source_synced_at: Option<String>,
    pub source_setup_script: Option<String>,
    pub workspace_setup_script: Option<String>,
    pub created_at: String,
    pub updated_at: String,
}

/// A Slack thread bound to a workspace.
#[derive(Debug)]
pub struct Session {
    pub id: String,
    pub team_id: String,
    pub channel_id: String,
    pub thread_ts: String,
    pub workspace_id: String,
    pub workspace_path: String,
    pub environment_id: Option<String>,
    pub current_workflow_id: Option<String>,
    pub status: String,
    pub created_at: String,
    pub updated_at: String,
}

} // verus!
