//! Policy documents (markdown with a YAML frontmatter) and their evaluation.
pub mod evaluator;
pub mod markdown_parser;
