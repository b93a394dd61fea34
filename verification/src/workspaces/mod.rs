//! Per-session workspaces: where they live, setup-script results and git status.
pub mod session_workspace;
