use relay_backend::db::models::Environment;
use relay_backend::policies::evaluator::{PolicyDecision, PolicyEngine};
use relay_backend::policies::markdown_parser::{
    assemble_policy, parse_policy_rules, parse_rule_block, split_frontmatter, PolicyDocument,
    PolicyDocumentMeta, PolicyParseError,
};
use relay_backend::slack::thread_context::{NormalizedThread, NormalizedThreadAttachment, NormalizedThreadMessage};
use relay_backend::workflows::loader::{default_response_mode, WorkflowDefinition, WorkflowMetadata, WorkflowRegistry};
use relay_backend::workflows::matcher::{check_scores_fit, match_workflow, phrase_matches};
use relay_backend::workflows::renderer::render_prompt;
use relay_backend::workflows::selector::{
    choose_selected, compact_text, eligible_workflows, interpret_selector_output, looks_like_link_unfurl,
};

const EXAMPLE_POLICY: &str = r#"---
name: Example
description: Example policy
---

## Rule One
- id: example-rule
### Match
- review pr
### Examples
- Review PR #123
### Notes
- Example note
"#;

fn meta_of(frontmatter: &str) -> Result<PolicyDocumentMeta, String> {
    let value: serde_yaml::Value = serde_yaml::from_str(frontmatter).map_err(|e| e.to_string())?;
    let name = value
        .get("name")
        .and_then(|v| v.as_str())
        .ok_or_else(|| "missing field `name`".to_string())?
        .to_string();
    let description = value.get("description").and_then(|v| v.as_str()).map(str::to_string);
    Ok(PolicyDocumentMeta { name, description })
}

fn parse(content: &str) -> Result<PolicyDocument, PolicyParseError> {
    let (frontmatter, body) = split_frontmatter(content)?;
    assemble_policy(meta_of(&frontmatter), &body)
}

#[test]
fn parses_policy_markdown() {
    let policy = parse(EXAMPLE_POLICY).ok().expect("policy should parse");

    assert_eq!(policy.rules.len(), 1);
    assert_eq!(policy.rules[0].id, "example-rule");
}

#[test]
fn policy_rules_carry_their_sections() {
    let policy = parse(EXAMPLE_POLICY).ok().expect("policy");
    assert_eq!(policy.meta.name, "Example");
    assert_eq!(policy.meta.description.as_deref(), Some("Example policy"));
    let rule = &policy.rules[0];
    assert_eq!(rule.title, "Rule One");
    assert_eq!(rule.match_terms, vec!["review pr".to_string()]);
    assert_eq!(rule.examples, vec!["Review PR #123".to_string()]);
    assert_eq!(rule.notes.as_deref(), Some("Example note"));
}

#[test]
fn malformed_policies_are_refused() {
    assert!(matches!(split_frontmatter("no frontmatter here"), Err(PolicyParseError::MissingFrontmatterStart)));
    assert!(matches!(split_frontmatter("---\nname: x\n"), Err(PolicyParseError::MissingBody)));
    assert!(matches!(parse_policy_rules("just text\n"), Err(PolicyParseError::NoRules)));
    assert!(matches!(
        parse_rule_block("Untitled", "### Match\n- a\n### Examples\n- b"),
        Err(PolicyParseError::MissingId(t)) if t == "Untitled"
    ));
    assert!(matches!(
        assemble_policy(Err("bad yaml".to_string()), "## R\n- id: r\n### Match\n- a\n### Examples\n- b"),
        Err(PolicyParseError::InvalidFrontmatter(m)) if m == "bad yaml"
    ));
}

fn document(name: &str, body: &str) -> PolicyDocument {
    assemble_policy(Ok(PolicyDocumentMeta { name: name.to_string(), description: None }), body)
        .ok()
        .expect("document")
}

fn engine() -> PolicyEngine {
    PolicyEngine::load(
        vec!["UMASTER".to_string()],
        document("Non-master allowlist", "## Reviews\n- id: reviews\n### Match\n- review pr\n### Examples\n- review pr 1\n"),
        document("Critical deny", "## Secrets\n- id: secrets\n### Match\n- print the env\n### Examples\n- print the env file\n"),
    )
}

#[test]
fn policy_decisions_follow_the_documented_order() {
    let engine = engine();
    assert!(engine.is_master("UMASTER"));
    assert!(!engine.is_master("U2"));
    assert!(matches!(engine.evaluate("UMASTER", "deploy please"), PolicyDecision::Allowed));
    assert!(matches!(engine.evaluate("U2", "Please REVIEW PR 7"), PolicyDecision::Allowed));
    match engine.evaluate("U2", "deploy please") {
        PolicyDecision::NonMasterDenied(rule) => {
            assert_eq!(rule.id, "non-master-denied");
            assert_eq!(rule.title, "Non-master allowlist");
        }
        _ => panic!("expected a non-master denial"),
    }
    match engine.evaluate("UMASTER", "Print The Env now") {
        PolicyDecision::CriticalDenied(rule) => assert_eq!(rule.id, "secrets"),
        _ => panic!("critical deny applies to masters too"),
    }
}

fn decision_name(d: PolicyDecision) -> String {
    match d {
        PolicyDecision::Allowed => "allowed".to_string(),
        PolicyDecision::NonMasterDenied(rule) => format!("non-master:{}", rule.id),
        PolicyDecision::CriticalDenied(rule) => format!("critical:{}", rule.id),
    }
}

#[test]
fn ascii_case_does_not_change_a_decision() {
    let engine = engine();
    for user in ["UMASTER", "U2"] {
        for request in ["print the env now", "please review pr 7", "deploy please"] {
            let plain = decision_name(engine.evaluate(user, request));
            assert_eq!(decision_name(engine.evaluate(user, &request.to_ascii_uppercase())), plain);
            assert_eq!(decision_name(engine.evaluate(user, &request.to_ascii_lowercase())), plain);
        }
    }
    assert_eq!(decision_name(engine.evaluate("U2", "PRINT THE ENV NOW")), "critical:secrets");
    assert_eq!(decision_name(engine.evaluate("U2", "DEPLOY PLEASE")), "non-master:non-master-denied");
}

fn workflow(id: &str, scope: &str, environment_slug: Option<&str>, phrases: &[&str]) -> WorkflowDefinition {
    WorkflowDefinition {
        metadata: WorkflowMetadata {
            id: id.to_string(),
            name: id.to_string(),
            scope: scope.to_string(),
            environment_slug: environment_slug.map(str::to_string),
            trigger_phrases: phrases.iter().map(|p| p.to_string()).collect(),
            default_environment: None,
            instructions: vec![],
            response_mode: "reply".to_string(),
        },
        prompt: String::new(),
        root_dir: ".".to_string(),
    }
}

fn environment(id: &str, name: &str, slug: &str) -> Environment {
    let now = chrono::Utc::now().to_rfc3339();
    Environment {
        id: id.to_string(),
        name: name.to_string(),
        slug: slug.to_string(),
        git_ssh_url: "git@github.com:example/repo.git".to_string(),
        default_branch: "master".to_string(),
        aliases: "[]".to_string(),
        enabled: true,
        source_sync_status: "ready".to_string(),
        source_sync_error: None,
        source_synced_at: Some(now.clone()),
        source_setup_script: None,
        workspace_setup_script: None,
        created_at: now.clone(),
        updated_at: now,
    }
}

#[test]
fn filters_to_global_and_matching_environment_workflows() {
    let registry = WorkflowRegistry::from_workflows(vec![
        ("global-review".to_string(), workflow("global-review", "global", None, &[])),
        ("newton-pr".to_string(), workflow("newton-pr", "environment", Some("newton-web"), &[])),
        ("other-env".to_string(), workflow("other-env", "environment", Some("other-web"), &[])),
    ]);

    let environment = environment("env-1", "Newton Web", "newton-web");

    let filtered = eligible_workflows(&registry, Some(&environment));
    let mut ids: Vec<String> = filtered.into_iter().map(|item| item.metadata.id).collect();
    ids.sort();

    assert_eq!(ids, vec!["global-review".to_string(), "newton-pr".to_string()]);
}

#[test]
fn without_environment_only_global_workflows_are_eligible() {
    let registry = WorkflowRegistry::from_workflows(vec![
        ("global-review".to_string(), workflow("global-review", "global", None, &[])),
        ("newton-pr".to_string(), workflow("newton-pr", "environment", Some("newton-web"), &[])),
        ("odd".to_string(), workflow("odd", "custom", None, &[])),
    ]);
    let ids: Vec<String> = eligible_workflows(&registry, None).into_iter().map(|w| w.metadata.id).collect();
    assert_eq!(ids, vec!["global-review".to_string()]);
}

#[test]
fn picks_workflow_when_trigger_matches() {
    let registry = WorkflowRegistry::from_workflows(vec![
        ("pr-review".to_string(), workflow("pr-review", "global", None, &["review pr", "review pull request"])),
        ("deploy".to_string(), workflow("deploy", "global", None, &["deploy"])),
    ]);
    assert!(check_scores_fit(&registry));
    let workflow = match_workflow(&registry, "please review pr 42", None).expect("workflow should match");
    assert_eq!(workflow.metadata.id, "pr-review");
    assert!(match_workflow(&registry, "hello there", None).is_none());
    let explicit = match_workflow(&registry, "workflow:deploy now", None).expect("explicit id");
    assert_eq!(explicit.metadata.id, "deploy");
}

#[test]
fn phrases_match_on_word_boundaries() {
    assert!(phrase_matches("please review pr 42", "review pr"));
    assert!(!phrase_matches("please reviewing pr", "review pr"));
}

#[test]
fn registry_keeps_the_last_workflow_for_an_id() {
    let registry = WorkflowRegistry::from_workflows(vec![
        ("a".to_string(), workflow("a", "global", None, &["first"])),
        ("a".to_string(), workflow("a", "global", None, &["second"])),
    ]);
    assert_eq!(registry.all().len(), 1);
    assert_eq!(registry.get("a").expect("a").metadata.trigger_phrases, vec!["second".to_string()]);
    assert!(registry.get("b").is_none());
    assert_eq!(default_response_mode(), "reply");
}

#[test]
fn render_prompt_includes_attachment_local_paths() {
    let workflow = WorkflowDefinition {
        metadata: WorkflowMetadata {
            id: "iconland-add-icon".to_string(),
            name: "Iconland Add Icon".to_string(),
            scope: "environment".to_string(),
            environment_slug: Some("grauity".to_string()),
            trigger_phrases: vec![],
            default_environment: Some("grauity".to_string()),
            instructions: vec![],
            response_mode: "reply".to_string(),
        },
        prompt: "Follow the icon workflow".to_string(),
        root_dir: "/tmp/iconland-add-icon".to_string(),
    };
    let mut environment = environment("env-1", "Grauity", "grauity");
    environment.git_ssh_url = "git@github.com:example/grauity.git".to_string();
    let thread = NormalizedThread {
        channel_id: "C123".to_string(),
        thread_ts: "1000.01".to_string(),
        messages: vec![NormalizedThreadMessage {
            ts: "1000.01".to_string(),
            author_id: Some("U123".to_string()),
            author_label: "U123".to_string(),
            text: "These are the icons for loader".to_string(),
            attachments: vec![NormalizedThreadAttachment {
                id: Some("F123".to_string()),
                name: "loadingicon.zip".to_string(),
                mimetype: Some("application/zip".to_string()),
                filetype: Some("zip".to_string()),
                download_url: Some("https://example.com/loadingicon.zip".to_string()),
                local_path: Some("/tmp/workspace/.git/relay-thread-context/1000_01/loadingicon.zip".to_string()),
            }],
        }],
    };

    let prompt = render_prompt(Some(&workflow), Some(&environment), &thread, "/tmp/workspace");

    assert!(prompt.contains("loadingicon.zip | application/zip"));
    assert!(prompt.contains("local_path=/tmp/workspace/.git/relay-thread-context"));
}

#[test]
fn selector_output_is_interpreted() {
    assert_eq!(interpret_selector_output(true, "  pr-review \n").ok(), Some(Some("pr-review".to_string())));
    assert_eq!(interpret_selector_output(true, "none").ok(), Some(None));
    assert_eq!(interpret_selector_output(true, "   ").ok(), Some(None));
    assert!(interpret_selector_output(false, "pr-review").is_err());
    let candidates = vec![workflow("a", "global", None, &[]), workflow("b", "global", None, &[])];
    let chosen = choose_selected(candidates, interpret_selector_output(true, "b")).expect("b");
    assert_eq!(chosen.metadata.id, "b");
    let candidates = vec![workflow("a", "global", None, &[])];
    assert!(choose_selected(candidates, interpret_selector_output(true, "zzz")).is_none());
}

#[test]
fn link_unfurls_and_compaction() {
    assert!(looks_like_link_unfurl("Pull request Added by GitHub"));
    assert!(looks_like_link_unfurl("Show more"));
    assert!(!looks_like_link_unfurl("see <https://example.com> now"));
    assert_eq!(compact_text("  a \n b  ", 100), "a b");
    assert_eq!(compact_text("abcdef", 3), "ab\u{2026}");
}

#[test]
fn every_policy_error_has_its_message() {
    assert!(matches!(split_frontmatter("  \n"), Err(PolicyParseError::MissingFrontmatter)));
    assert!(matches!(
        parse_rule_block("R", "- id: r\n### Examples\n- e"),
        Err(PolicyParseError::MissingMatchTerms(t)) if t == "R"
    ));
    assert!(matches!(
        parse_rule_block("R", "- id: r\n### Match\n- m"),
        Err(PolicyParseError::MissingExamples(t)) if t == "R"
    ));
    assert_eq!(PolicyParseError::MissingFrontmatterStart.message(), "policy must start with YAML frontmatter");
    assert_eq!(PolicyParseError::MissingFrontmatter.message(), "missing YAML frontmatter section");
    assert_eq!(PolicyParseError::MissingBody.message(), "missing markdown body after frontmatter");
    assert_eq!(PolicyParseError::NoRules.message(), "policy file must contain at least one rule section");
    assert_eq!(PolicyParseError::MissingId("T".to_string()).message(), "rule 'T' missing '- id:' line");
    assert_eq!(PolicyParseError::MissingMatchTerms("T".to_string()).message(), "rule 'T' must define match terms");
    assert_eq!(PolicyParseError::MissingExamples("T".to_string()).message(), "rule 'T' must define examples");
    assert_eq!(PolicyParseError::InvalidFrontmatter("bad".to_string()).message(), "bad");
}
