use relay_backend::db::models::{Environment, Session};
use relay_backend::runner::RunnerOutput;
use relay_backend::tasks::orchestrator::{
    apply_browser_execution_directive, build_reply_text, build_task_kickoff_message,
    classify_request_execution_policy, classify_wrapper_failure, compact_error_excerpt,
    contains_network_prereq_failure, enforce_environment_binding, is_playwright_task_workflow,
    normalize_script, pin_playwright_workflow, should_post_task_kickoff_message,
    summarize_error_for_storage, summarize_hook_failure_for_task, CliPreflightError,
    EnvironmentBindingError,
};
use relay_backend::tasks::reply_service::outbound_payloads;
use relay_backend::config::{Config, ConfigInputs};
use relay_backend::workflows::loader::{WorkflowDefinition, WorkflowMetadata, WorkflowRegistry};

fn now() -> String {
    chrono::Utc::now().to_rfc3339()
}

fn sample_session(environment_id: Option<&str>) -> Session {
    Session {
        id: "session-1".to_string(),
        team_id: "T1".to_string(),
        channel_id: "C1".to_string(),
        thread_ts: "123.456".to_string(),
        workspace_id: "workspace-1".to_string(),
        workspace_path: "/tmp/workspace-1".to_string(),
        environment_id: environment_id.map(str::to_string),
        current_workflow_id: None,
        status: "idle".to_string(),
        created_at: now(),
        updated_at: now(),
    }
}

fn sample_environment(id: &str) -> Environment {
    Environment {
        id: id.to_string(),
        name: format!("Environment {id}"),
        slug: format!("env-{id}"),
        git_ssh_url: "git@github.com:example/repo.git".to_string(),
        default_branch: "master".to_string(),
        aliases: "[]".to_string(),
        enabled: true,
        source_sync_status: "ready".to_string(),
        source_sync_error: None,
        source_synced_at: Some(now()),
        source_setup_script: None,
        workspace_setup_script: None,
        created_at: now(),
        updated_at: now(),
    }
}

fn playwright_workflow() -> WorkflowDefinition {
    WorkflowDefinition {
        metadata: WorkflowMetadata {
            id: "playwright-task".to_string(),
            name: "Playwright Task".to_string(),
            scope: "global".to_string(),
            environment_slug: None,
            trigger_phrases: vec!["playwright".to_string()],
            default_environment: None,
            instructions: vec!["Use browser automation".to_string()],
            response_mode: "reply".to_string(),
        },
        prompt: "Prompt".to_string(),
        root_dir: ".workflows/global/playwright-task".to_string(),
    }
}

#[test]
fn rejects_switching_to_another_environment_in_same_thread() {
    let session = sample_session(Some("env-1"));
    let requested = sample_environment("env-2");

    let error = enforce_environment_binding(&session, Some(&requested))
        .err()
        .expect("thread should stay bound to its original environment");

    assert!(error
        .message()
        .contains("Start a new thread to use another environment"));
}

#[test]
fn rejects_rebinding_general_thread_to_environment() {
    let session = sample_session(None);
    let requested = sample_environment("env-1");

    let error = enforce_environment_binding(&session, Some(&requested))
        .err()
        .expect("general thread should not switch environments");

    assert!(error
        .message()
        .contains("Start a new thread to use an environment"));
}

#[test]
fn binding_allows_same_environment_or_none() {
    let session = sample_session(Some("env-1"));
    assert!(enforce_environment_binding(&session, Some(&sample_environment("env-1"))).is_ok());
    assert!(enforce_environment_binding(&session, None).is_ok());
    assert!(enforce_environment_binding(&sample_session(None), None).is_ok());
    assert!(matches!(
        enforce_environment_binding(&session, Some(&sample_environment("env-9"))),
        Err(EnvironmentBindingError::OtherEnvironment)
    ));
}

#[test]
fn classifies_browser_and_cli_playwright_requests() {
    let policy = classify_request_execution_policy("Use Playwright CLI skill to open URL and count cards");
    assert!(policy.is_browser_task);
    assert!(policy.explicit_playwright_requested);
    assert!(policy.explicit_cli_playwright_requested);
}

#[test]
fn classifies_non_browser_requests() {
    let policy = classify_request_execution_policy("Please review PR #123");
    assert!(!policy.is_browser_task);
    assert!(!policy.explicit_playwright_requested);
    assert!(!policy.explicit_cli_playwright_requested);
}

#[test]
fn pins_playwright_workflow_for_explicit_playwright_prompt() {
    let registry = WorkflowRegistry::from_workflows(vec![("playwright-task".to_string(), playwright_workflow())]);
    let policy = classify_request_execution_policy("Run this with playwright.");

    let workflow = pin_playwright_workflow(&registry, &policy).expect("workflow should be pinned");
    assert_eq!(workflow.metadata.id, "playwright-task");
}

#[test]
fn does_not_pin_without_explicit_request_or_workflow() {
    let registry = WorkflowRegistry::from_workflows(vec![("playwright-task".to_string(), playwright_workflow())]);
    let policy = classify_request_execution_policy("take a screenshot");
    assert!(policy.is_browser_task);
    assert!(pin_playwright_workflow(&registry, &policy).is_none());
    let empty = WorkflowRegistry::from_workflows(vec![]);
    let explicit = classify_request_execution_policy("use playwright");
    assert!(pin_playwright_workflow(&empty, &explicit).is_none());
    assert!(is_playwright_task_workflow(Some(&playwright_workflow())));
    assert!(!is_playwright_task_workflow(None));
}

#[test]
fn network_precheck_error_signatures_detected() {
    assert!(contains_network_prereq_failure("npm error code ENOTFOUND registry.npmjs.org"));
    assert!(contains_network_prereq_failure("request failed with EAI_AGAIN"));
    assert!(!contains_network_prereq_failure("permission denied opening wrapper"));
}

#[test]
fn applies_browser_execution_directive_for_browser_tasks() {
    let policy = classify_request_execution_policy("Use playwright to take a screenshot");
    let prompt = apply_browser_execution_directive("Base prompt".to_string(), &policy);
    assert!(prompt.contains("Prefer Playwright MCP/browser tools by default"));
    assert!(prompt.contains("Base prompt"));
}

#[test]
fn browser_directive_allows_cli_when_explicitly_requested() {
    let policy = classify_request_execution_policy("Use Playwright CLI skill");
    let prompt = apply_browser_execution_directive("Base prompt".to_string(), &policy);
    assert!(prompt.contains("CLI path is allowed"));
}

#[test]
fn directive_leaves_other_prompts_alone() {
    let policy = classify_request_execution_policy("review the PR");
    assert_eq!(
        apply_browser_execution_directive("Base prompt".to_string(), &policy),
        "Base prompt"
    );
    let policy = classify_request_execution_policy("open url example.com");
    assert_eq!(
        apply_browser_execution_directive("P".to_string(), &policy),
        "Execution policy for browser tasks:\n- Prefer Playwright MCP/browser tools by default.\n- Use Playwright CLI only if the request explicitly asks for CLI.\n\nP"
    );
}

#[test]
fn skips_kickoff_message_for_general_threads() {
    assert!(!should_post_task_kickoff_message(None));
    assert!(should_post_task_kickoff_message(Some(&sample_environment("env-1"))));
}

fn config() -> Config {
    let vars = vec![
        ("APP_BASE_URL".to_string(), "http://localhost:8080".to_string()),
        ("APP_PORT".to_string(), "8080".to_string()),
        ("PORTAL_BASE_URL".to_string(), "https://portal.example.com//".to_string()),
    ];
    Config::from_inputs(&ConfigInputs { vars, current_dir: "/srv/relay/backend".to_string(), home_dir: Some("/home/r".to_string()) })
        .ok()
        .expect("config")
}

#[test]
fn kickoff_message_names_environment_workflow_and_task() {
    let message = build_task_kickoff_message(
        &config(),
        &sample_session(Some("env-1")),
        Some(&sample_environment("env-1")),
        Some(&playwright_workflow()),
    );
    assert_eq!(
        message,
        "Kicked off the task in environment `Environment env-1` using workflow `Playwright Task`.\nOpen task: https://portal.example.com/tasks/session-1"
    );
    let general = build_task_kickoff_message(&config(), &sample_session(None), None, None);
    assert!(general.starts_with("Kicked off the task in environment `general` using workflow `Generic run`."));
}

fn output(status: &str, stdout: &str, stderr: &str) -> RunnerOutput {
    RunnerOutput { status: status.to_string(), exit_code: None, stdout: stdout.to_string(), stderr: stderr.to_string() }
}

#[test]
fn reply_text_follows_the_run_status() {
    assert_eq!(build_reply_text(&output("cancelled", "x", "")), "Task cancelled manually.");
    assert_eq!(build_reply_text(&output("timed_out", "", "")), "Task timed out before completion.");
    assert_eq!(build_reply_text(&output("succeeded", "  done \n", "")), "done");
    assert_eq!(
        build_reply_text(&output("failed", "", "fetch failed: ETIMEDOUT")),
        "Task failed due to browser runtime prerequisites/network availability."
    );
    assert_eq!(build_reply_text(&output("failed", "", "  boom\n  bang ")), "Task failed.\nboom bang");
    assert_eq!(build_reply_text(&output("succeeded", "  ", "")), "Task finished with status succeeded");
}

#[test]
fn stored_error_summary_follows_the_run_status() {
    assert_eq!(summarize_error_for_storage(&output("succeeded", "", "oops")), None);
    assert_eq!(
        summarize_error_for_storage(&output("cancelled", "", "")).as_deref(),
        Some("Task was cancelled manually.")
    );
    assert_eq!(
        summarize_error_for_storage(&output("timed_out", "", "")).as_deref(),
        Some("Task execution timed out before completion.")
    );
    assert_eq!(
        summarize_error_for_storage(&output("failed", "", "npm error network")).as_deref(),
        Some("Browser runtime prerequisites/network availability issue.")
    );
    assert_eq!(summarize_error_for_storage(&output("failed", "", " a  b ")).as_deref(), Some("a b"));
    assert_eq!(
        summarize_error_for_storage(&output("failed", "", "")).as_deref(),
        Some("Task finished with status failed")
    );
}

#[test]
fn error_excerpt_is_compact_and_bounded() {
    assert_eq!(compact_error_excerpt("   "), "preflight check failed without stderr output");
    assert_eq!(compact_error_excerpt("a\n\tb   c"), "a b c");
    let long = "x".repeat(500);
    assert_eq!(compact_error_excerpt(&long).chars().count(), 220);
}

#[test]
fn hook_failure_summary_prefers_stderr() {
    assert_eq!(summarize_hook_failure_for_task("err", "out"), "Workspace setup script failed: err");
    assert_eq!(summarize_hook_failure_for_task(" ", "out"), "Workspace setup script failed: out");
    assert_eq!(
        summarize_hook_failure_for_task("", ""),
        "Workspace setup script failed: workspace setup script failed with no output"
    );
}

#[test]
fn scripts_are_trimmed_and_blank_ones_dropped() {
    assert_eq!(normalize_script(Some("  make setup \n")).as_deref(), Some("make setup"));
    assert_eq!(normalize_script(Some("   ")), None);
    assert_eq!(normalize_script(None), None);
}

#[test]
fn preflight_errors_are_summarised() {
    assert_eq!(
        CliPreflightError::MissingNpx.summary(),
        "Playwright CLI preflight failed: npx is not available."
    );
    assert_eq!(
        CliPreflightError::TimedOut("checking npx".to_string()).summary(),
        "Playwright CLI preflight timed out while checking npx."
    );
    match classify_wrapper_failure("  npm ERR! ENOTFOUND registry.npmjs.org \n") {
        CliPreflightError::NetworkUnavailable(m) => assert_eq!(m, "npm ERR! ENOTFOUND registry.npmjs.org"),
        _ => panic!("expected a network failure"),
    }
    match classify_wrapper_failure("") {
        CliPreflightError::WrapperUnavailable(m) => assert_eq!(m, "preflight check failed without stderr output"),
        _ => panic!("expected an unavailable wrapper"),
    }
}

#[test]
fn outbound_reply_payloads() {
    let (raw, resolved) = outbound_payloads("hi <@U1>");
    assert_eq!(raw, "{\"text\":\"hi <@U1>\"}");
    assert_eq!(resolved, "{\"text\":\"hi @U1\"}");
}
