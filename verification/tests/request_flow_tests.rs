use relay_backend::config::{Config, ConfigInputs};
use relay_backend::db::models::{Environment, Session};
use relay_backend::policies::evaluator::PolicyEngine;
use relay_backend::policies::markdown_parser::{assemble_policy, PolicyDocument, PolicyDocumentMeta};
use relay_backend::runner::RunnerOutput;
use relay_backend::slack::thread_context::SlackReplyMessage;
use relay_backend::slack::{SlackEnvelopePayload, SlackEventEnvelope, SlackMessageEvent};
use relay_backend::tasks::orchestrator::CliPreflightError;
use relay_backend::tasks::request_flow::{hook_events, RequestCommand, RequestFlow, RequestOutcome, RequestStage};
use relay_backend::workflows::loader::{WorkflowDefinition, WorkflowMetadata, WorkflowRegistry};
use relay_backend::workspaces::session_workspace::{HookRunResult, PreparedWorkspace};
use relay_backend::environments::service::LogStream;

fn envelope(event_type: &str, user: Option<&str>, text: &str, thread_ts: Option<&str>) -> SlackEventEnvelope {
    SlackEventEnvelope {
        envelope_id: "E1".to_string(),
        envelope_type: "events_api".to_string(),
        payload: SlackEnvelopePayload {
            event_id: "Ev1".to_string(),
            team_id: None,
            event: SlackMessageEvent {
                event_type: event_type.to_string(),
                user: user.map(str::to_string),
                text: Some(text.to_string()),
                channel: Some("C1".to_string()),
                ts: Some("100.1".to_string()),
                thread_ts: thread_ts.map(str::to_string),
            },
        },
    }
}

fn document(name: &str, body: &str) -> PolicyDocument {
    assemble_policy(Ok(PolicyDocumentMeta { name: name.to_string(), description: None }), body)
        .ok()
        .expect("document")
}

fn policies() -> PolicyEngine {
    PolicyEngine::load(
        vec!["UM".to_string()],
        document("Allowlist", "## Reviews\n- id: reviews\n### Match\n- review pr\n### Examples\n- review pr 1\n"),
        document("Critical", "## Secrets\n- id: secrets\n### Match\n- dump secrets\n### Examples\n- dump secrets now\n"),
    )
}

fn config() -> Config {
    let vars = vec![
        ("APP_BASE_URL".to_string(), "http://portal".to_string()),
        ("APP_PORT".to_string(), "8080".to_string()),
        ("BROWSER_TASK_TIMEOUT_SECONDS".to_string(), "77".to_string()),
    ];
    Config::from_inputs(&ConfigInputs { vars, current_dir: "/srv".to_string(), home_dir: None })
        .ok()
        .expect("config")
}

fn registry() -> WorkflowRegistry {
    WorkflowRegistry::from_workflows(vec![(
        "playwright-task".to_string(),
        WorkflowDefinition {
            metadata: WorkflowMetadata {
                id: "playwright-task".to_string(),
                name: "Playwright Task".to_string(),
                scope: "global".to_string(),
                environment_slug: None,
                trigger_phrases: vec!["playwright".to_string()],
                default_environment: None,
                instructions: vec![],
                response_mode: "reply".to_string(),
            },
            prompt: "Drive the browser".to_string(),
            root_dir: ".".to_string(),
        },
    )])
}

fn environment() -> Environment {
    Environment {
        id: "env-1".to_string(),
        name: "Web".to_string(),
        slug: "web".to_string(),
        git_ssh_url: "git@x:web.git".to_string(),
        default_branch: "main".to_string(),
        aliases: "[\"frontend\"]".to_string(),
        enabled: true,
        source_sync_status: "ready".to_string(),
        source_sync_error: None,
        source_synced_at: None,
        source_setup_script: None,
        workspace_setup_script: Some("  npm ci  ".to_string()),
        created_at: "2024-01-01T00:00:00Z".to_string(),
        updated_at: "2024-01-01T00:00:00Z".to_string(),
    }
}

fn session(environment_id: Option<&str>) -> Session {
    Session {
        id: "S1".to_string(),
        team_id: "unknown-team".to_string(),
        channel_id: "C1".to_string(),
        thread_ts: "100.1".to_string(),
        workspace_id: "W1".to_string(),
        workspace_path: "/ws/W1".to_string(),
        environment_id: environment_id.map(str::to_string),
        current_workflow_id: None,
        status: "idle".to_string(),
        created_at: "t".to_string(),
        updated_at: "t".to_string(),
    }
}

fn posted(cmds: &[RequestCommand]) -> Vec<String> {
    cmds.iter()
        .filter_map(|c| match c {
            RequestCommand::PostMessage { text, .. } => Some(text.clone()),
            RequestCommand::Reply { text, .. } => Some(text.clone()),
            _ => None,
        })
        .collect()
}

fn reactions(cmds: &[RequestCommand]) -> Vec<String> {
    cmds.iter()
        .filter_map(|c| match c {
            RequestCommand::AddReaction { name, .. } => Some(format!("+{name}")),
            RequestCommand::RemoveReaction { name, .. } => Some(format!("-{name}")),
            _ => None,
        })
        .collect()
}

#[test]
fn repeated_or_foreign_events_are_ignored() {
    let (mut flow, cmds) = RequestFlow::new(envelope("app_mention", Some("UM"), "hi", None));
    assert!(matches!(&cmds[..], [RequestCommand::RecordEvent { event_id }] if event_id == "Ev1"));
    assert!(flow.on_recorded(false).is_empty());
    assert_eq!(flow.outcome, Some(RequestOutcome::Ignored));

    let (mut flow, _) = RequestFlow::new(envelope("message", Some("UM"), "hi", None));
    assert!(flow.on_recorded(true).is_empty());
    assert_eq!(flow.stage, RequestStage::Finished);

    let (mut flow, _) = RequestFlow::new(envelope("app_mention", None, "hi", None));
    assert!(flow.on_recorded(true).is_empty());
    assert_eq!(flow.outcome, Some(RequestOutcome::Ignored));
}

#[test]
fn mention_fields_are_derived() {
    let (flow, _) = RequestFlow::new(envelope("app_mention", Some("UM"), "hi", Some("99.9")));
    assert_eq!(flow.thread_ts, "99.9");
    assert_eq!(flow.trigger_ts, "100.1");
    assert_eq!(flow.team_id, "unknown-team");
    let (flow, _) = RequestFlow::new(envelope("app_mention", Some("UM"), "hi", None));
    assert_eq!(flow.thread_ts, "100.1");
}

#[test]
fn banned_users_only_get_the_ban_notice() {
    let (mut flow, _) = RequestFlow::new(envelope("app_mention", Some("U2"), "hi", None));
    let cmds = flow.on_recorded(true);
    assert!(matches!(&cmds[..], [RequestCommand::LookupBan { user_id }] if user_id == "U2"));
    let cmds = flow.on_ban_checked(Some("2030-01-01".to_string()));
    assert_eq!(
        posted(&cmds),
        vec!["Your access is temporarily blocked until 2030-01-01 because of repeated critical requests.".to_string()]
    );
    assert!(reactions(&cmds).is_empty());
    assert_eq!(flow.outcome, Some(RequestOutcome::Ignored));
}

#[test]
fn non_masters_have_their_thread_loaded_before_the_policies_decide() {
    let (mut flow, _) = RequestFlow::new(envelope("app_mention", Some("U2"), "please review pr 7", None));
    flow.on_recorded(true);
    let cmds = flow.on_ban_checked(None);
    assert!(posted(&cmds).is_empty());
    assert_eq!(reactions(&cmds), vec!["+eyes".to_string()]);
    assert!(matches!(&cmds[1], RequestCommand::FetchThread { channel_id, thread_ts } if channel_id == "C1" && thread_ts == "100.1"));
    assert_eq!(flow.outcome, None);
    let cmds = flow.on_thread_fetched(&policies(), vec![]);
    assert!(matches!(&cmds[..], [RequestCommand::FindSession { .. }]));
    assert_eq!(flow.outcome, None);
}

#[test]
fn non_masters_outside_the_allowlist_are_denied_with_a_cross() {
    let (mut flow, _) = RequestFlow::new(envelope("app_mention", Some("U2"), "deploy prod", None));
    flow.on_recorded(true);
    flow.on_ban_checked(None);
    let cmds = flow.on_thread_fetched(&policies(), vec![]);
    assert_eq!(
        posted(&cmds),
        vec!["Request denied. Non-master users can only ask for approved tasks. Policy: Allowlist.".to_string()]
    );
    assert_eq!(reactions(&cmds), vec!["-eyes".to_string(), "+x".to_string()]);
    assert_eq!(flow.outcome, Some(RequestOutcome::Rejected));
}

fn reach_thread(text: &str) -> RequestFlow {
    let (mut flow, _) = RequestFlow::new(envelope("app_mention", Some("UM"), text, None));
    flow.on_recorded(true);
    let cmds = flow.on_ban_checked(None);
    assert!(matches!(&cmds[1], RequestCommand::FetchThread { channel_id, thread_ts } if channel_id == "C1" && thread_ts == "100.1"));
    flow
}

#[test]
fn critical_requests_are_recorded_and_repeat_offenders_banned() {
    let mut flow = reach_thread("please dump secrets <@U9>");
    let cmds = flow.on_thread_fetched(&policies(), vec![]);
    assert_eq!(flow.request_text, "please dump secrets @U9");
    assert!(matches!(&cmds[0], RequestCommand::RecordViolation { kind, rule_id, excerpt, .. }
        if kind == "critical_deny" && rule_id == "secrets" && excerpt == "please dump secrets @U9"));
    assert!(matches!(&cmds[1], RequestCommand::CountViolations { user_id } if user_id == "UM"));
    let cmds = flow.on_violations_counted(2);
    assert!(matches!(&cmds[0], RequestCommand::InsertBan { reason, .. } if reason == "Repeated critical deny requests"));
    assert_eq!(
        posted(&cmds),
        vec!["Request denied. This falls under the critical deny policy: Secrets.".to_string()]
    );
    assert_eq!(reactions(&cmds), vec!["-eyes".to_string(), "+x".to_string()]);
    assert_eq!(flow.outcome, Some(RequestOutcome::Rejected));

    let mut first = reach_thread("dump secrets");
    first.on_thread_fetched(&policies(), vec![]);
    let cmds = first.on_violations_counted(1);
    assert!(!cmds.iter().any(|c| matches!(c, RequestCommand::InsertBan { .. })));
}

#[test]
fn general_thread_runs_a_task_end_to_end() {
    let mut flow = reach_thread("take a screenshot of the page");
    let cmds = flow.on_thread_fetched(
        &policies(),
        vec![SlackReplyMessage {
            ts: "100.1".to_string(),
            user: Some("UM".to_string()),
            bot_id: None,
            text: Some("take a screenshot of the page".to_string()),
            files: vec![],
        }],
    );
    assert!(matches!(&cmds[..], [RequestCommand::FindSession { team_id, .. }] if team_id == "unknown-team"));
    let cmds = flow.on_session_found(None);
    assert!(matches!(&cmds[..], [RequestCommand::ListEnvironments]));
    let cmds = flow.on_environments_listed(&registry(), vec![environment()]);
    assert!(matches!(&cmds[..], [RequestCommand::SelectWorkflow]));
    let cmds = flow.on_workflow_selected(&registry(), None);
    assert!(matches!(&cmds[..], [RequestCommand::PrepareGeneralWorkspace]));
    let cmds = flow.on_workspace_prepared(PreparedWorkspace {
        workspace_id: "W9".to_string(),
        workspace_path: "/ws/general/W9".to_string(),
        created: true,
    });
    assert!(matches!(&cmds[..], [RequestCommand::CreateSession { workspace_id, environment_id: None, workflow_id: None, .. }] if workspace_id == "W9"));
    let mut created = session(None);
    created.id = "S9".to_string();
    created.workspace_path = "/ws/general/W9".to_string();
    let cmds = flow.on_session_created(created);
    assert!(matches!(&cmds[..], [RequestCommand::CheckActiveRun { session_id }] if session_id == "S9"));
    let cmds = flow.on_active_run_checked(false);
    assert!(matches!(&cmds[1], RequestCommand::InsertTaskRun { status, trigger_message_ts, .. } if status == "running" && trigger_message_ts == "100.1"));
    let cmds = flow.on_task_run_inserted(&config(), "R1".to_string());
    assert!(matches!(&cmds[0], RequestCommand::InsertTaskMessage { raw_payload, .. }
        if raw_payload == "{\"channel_id\":\"C1\",\"text\":\"take a screenshot of the page\",\"thread_ts\":\"100.1\",\"user_id\":\"UM\"}"));
    match &cmds[1] {
        RequestCommand::RunTask(input) => {
            assert_eq!(input.task_run_id, "R1");
            assert_eq!(input.workspace_path, "/ws/general/W9");
            assert_eq!(input.timeout_seconds, None);
            assert!(input.prompt.starts_with("Execution policy for browser tasks:"));
            assert!(input.prompt.contains("Workspace: /ws/general/W9"));
        }
        _ => panic!("expected the run to start"),
    }
    assert_eq!(cmds.len(), 2);
    let cmds = flow.on_run_finished(RunnerOutput {
        status: "succeeded".to_string(),
        exit_code: Some(0),
        stdout: " All done ".to_string(),
        stderr: String::new(),
    });
    assert!(matches!(&cmds[0], RequestCommand::UpdateTaskRun { status, error_summary: None, .. } if status == "succeeded"));
    assert_eq!(posted(&cmds), vec!["All done".to_string()]);
    assert_eq!(reactions(&cmds), vec!["-eyes".to_string(), "+white-tick".to_string()]);
    assert_eq!(flow.outcome, Some(RequestOutcome::Completed));
}

#[test]
fn playwright_cli_tasks_wait_for_the_preflight() {
    let mut flow = reach_thread("use playwright cli on the site");
    flow.on_thread_fetched(&policies(), vec![]);
    flow.on_session_found(None);
    let cmds = flow.on_environments_listed(&registry(), vec![environment()]);
    assert!(matches!(&cmds[..], [RequestCommand::PrepareGeneralWorkspace]));
    flow.on_workspace_prepared(PreparedWorkspace { workspace_id: "W".to_string(), workspace_path: "/w".to_string(), created: false });
    flow.on_session_created(session(None));
    flow.on_active_run_checked(false);
    let cmds = flow.on_task_run_inserted(&config(), "R2".to_string());
    assert!(matches!(&cmds[..], [RequestCommand::InsertTaskMessage { .. }, RequestCommand::Preflight]));
    let cmds = flow.on_preflight_finished(&config(), Err(CliPreflightError::MissingNpx));
    assert!(matches!(&cmds[0], RequestCommand::UpdateTaskRun { status, error_summary: Some(s), .. }
        if status == "blocked" && s == "Playwright CLI preflight failed: npx is not available."));
    assert_eq!(
        posted(&cmds),
        vec!["Browser CLI prerequisites/network are unavailable right now; task was blocked before execution.".to_string()]
    );
    assert_eq!(flow.outcome, Some(RequestOutcome::Rejected));
}

#[test]
fn preflight_success_runs_with_the_browser_time_limit() {
    let mut flow = reach_thread("use playwright cli on the site");
    flow.on_thread_fetched(&policies(), vec![]);
    flow.on_session_found(None);
    flow.on_environments_listed(&registry(), vec![]);
    flow.on_workspace_prepared(PreparedWorkspace { workspace_id: "W".to_string(), workspace_path: "/w".to_string(), created: true });
    flow.on_session_created(session(None));
    flow.on_active_run_checked(false);
    flow.on_task_run_inserted(&config(), "R3".to_string());
    let cmds = flow.on_preflight_finished(&config(), Ok(()));
    assert!(matches!(&cmds[..], [RequestCommand::RunTask(input)] if input.timeout_seconds == Some(77)));
}

#[test]
fn named_environment_gets_a_repo_workspace_and_setup_script() {
    let mut flow = reach_thread("review pr in frontend");
    flow.on_thread_fetched(&policies(), vec![]);
    flow.on_session_found(None);
    let cmds = flow.on_environments_listed(&registry(), vec![environment()]);
    assert!(matches!(&cmds[..], [RequestCommand::SelectWorkflow]));
    let cmds = flow.on_workflow_selected(&registry(), None);
    assert!(matches!(&cmds[..], [RequestCommand::PrepareRepoWorkspace { slug, default_branch, .. }] if slug == "web" && default_branch == "main"));
    let cmds = flow.on_workspace_prepared(PreparedWorkspace { workspace_id: "W".to_string(), workspace_path: "/w".to_string(), created: true });
    assert!(matches!(&cmds[..], [RequestCommand::CreateSession { environment_id: Some(e), .. }] if e == "env-1"));
    assert_eq!(flow.setup_script.as_deref(), Some("npm ci"));
    flow.on_session_created(session(Some("env-1")));
    flow.on_active_run_checked(false);
    let cmds = flow.on_task_run_inserted(&config(), "R4".to_string());
    assert_eq!(
        posted(&cmds),
        vec!["Kicked off the task in environment `Web` using workflow `Generic run`.\nOpen task: http://portal/tasks/S1".to_string()]
    );
    assert!(matches!(cmds.last(), Some(RequestCommand::RunHook { script, .. }) if script == "npm ci"));
    let cmds = flow.on_hook_finished(&config(), HookRunResult {
        stdout: "ok".to_string(),
        stderr: "fatal".to_string(),
        exit_code: Some(2),
        timed_out: false,
    });
    assert!(matches!(&cmds[1], RequestCommand::UpdateTaskRun { status, exit_code: Some(2), .. } if status == "failed"));
    assert_eq!(
        posted(&cmds),
        vec!["Task failed before execution. Workspace setup script failed: fatal".to_string()]
    );
    assert_eq!(reactions(&cmds), vec!["-eyes".to_string(), "+x".to_string()]);
}

#[test]
fn threads_keep_their_binding() {
    let mut flow = reach_thread("review pr in frontend");
    flow.on_thread_fetched(&policies(), vec![]);
    flow.on_session_found(Some(session(None)));
    let cmds = flow.on_environments_listed(&registry(), vec![environment()]);
    assert_eq!(
        posted(&cmds),
        vec!["This thread started as a general workspace and cannot be rebound to an environment.".to_string()]
    );

    let mut flow = reach_thread("review pr in frontend");
    flow.on_thread_fetched(&policies(), vec![]);
    flow.on_session_found(Some(session(Some("env-7"))));
    let cmds = flow.on_environments_listed(&registry(), vec![environment()]);
    assert!(matches!(&cmds[..], [RequestCommand::GetEnvironment { id }] if id == "env-7"));
    let mut other = environment();
    other.id = "env-7".to_string();
    let cmds = flow.on_bound_environment(&registry(), Some(other));
    assert_eq!(
        posted(&cmds),
        vec!["This thread is already bound to a different environment. Start a new thread to switch environments.".to_string()]
    );
}

#[test]
fn busy_threads_are_told_to_wait() {
    let mut flow = reach_thread("review pr");
    flow.on_thread_fetched(&policies(), vec![]);
    flow.on_session_found(Some(session(None)));
    flow.on_environments_listed(&registry(), vec![]);
    let cmds = flow.on_workflow_selected(&registry(), None);
    assert!(matches!(&cmds[..], [RequestCommand::CheckActiveRun { session_id }] if session_id == "S1"));
    let cmds = flow.on_active_run_checked(true);
    assert_eq!(
        posted(&cmds),
        vec!["This thread already has an active task run. Wait for it to finish before sending another request.".to_string()]
    );
}

#[test]
fn failures_close_with_a_cross_once() {
    let mut flow = reach_thread("review pr");
    flow.on_thread_fetched(&policies(), vec![]);
    let cmds = flow.on_failed("database is locked".to_string());
    assert_eq!(reactions(&cmds), vec!["-eyes".to_string(), "+x".to_string()]);
    assert_eq!(flow.failure.as_deref(), Some("database is locked"));
    assert!(flow.on_failed("again".to_string()).is_empty());
    assert!(flow.on_run_finished(RunnerOutput { status: "succeeded".to_string(), exit_code: None, stdout: String::new(), stderr: String::new() }).is_empty());

    let mut resolving = reach_thread("review pr");
    resolving.on_thread_fetched(&policies(), vec![]);
    resolving.on_session_found(None);
    let cmds = resolving.on_failed("no such table".to_string());
    assert_eq!(posted(&cmds), vec!["no such table".to_string()]);
    assert_eq!(resolving.outcome, Some(RequestOutcome::Rejected));

    let (mut early, _) = RequestFlow::new(envelope("app_mention", Some("UM"), "hi", None));
    assert!(early.on_failed("boom".to_string()).is_empty());
}

#[test]
fn setup_script_output_becomes_terminal_events() {
    let events = hook_events(&HookRunResult {
        stdout: "a\nb\n".to_string(),
        stderr: "warn\r\n".to_string(),
        exit_code: None,
        timed_out: true,
    });
    let got: Vec<(LogStream, String)> = events.into_iter().map(|e| (e.stream, e.chunk)).collect();
    assert_eq!(
        got,
        vec![
            (LogStream::Stdout, "[workspace setup] Running workspace setup script\n".to_string()),
            (LogStream::Stdout, "a\n".to_string()),
            (LogStream::Stdout, "b\n".to_string()),
            (LogStream::Stderr, "warn\n".to_string()),
            (LogStream::Stderr, "[workspace setup] script timed out\n".to_string()),
        ]
    );
}
