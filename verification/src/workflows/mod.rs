//! Workflow definitions, their registry, and choosing and rendering a workflow.
pub mod loader;
pub mod matcher;
pub mod renderer;
pub mod selector;
