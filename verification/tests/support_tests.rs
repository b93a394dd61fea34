use std::sync::Arc;

use relay_backend::api::tasks::{cancel_outcome, CancelRefusal};
use relay_backend::config::{parse_bounded, parse_id_list, Config, ConfigInputs};
use relay_backend::db::models::Environment;
use relay_backend::db::sqlite_file_path;
use relay_backend::environments::service::{
    check_deletable, check_environment_change, check_refreshable, environment_record, record_with_aliases, remote_access_error,
    resolve_from_prompt,
    sync_log_chunk, CreateEnvironmentInput, EnvironmentError, LogStream, SourceSync, SyncCommand, SyncEvent,
    SyncStage,
};
use relay_backend::runner::{choose_last_message, codex_invocation, collect_lines, runner_output, RunnerInput, WaitOutcome};
use relay_backend::terminal::{
    append_history, connected_status, exited_status, history_trim_length, missing_workspace_error, stream_error,
    TerminalSocketMessage, OUTPUT_BUFFER_LIMIT,
};
use relay_backend::workspaces::session_workspace::{
    describe_git_status, parse_status_line, parse_status_path, sanitize_workspace_relative_path,
    skipped_hook_result, HookRunResult, WorkspaceManager, WorkspacePathError,
};

use relay_backend::workspaces::session_workspace::{
        diff_args, git_exit_accepted, git_failure, source_clone_args, source_refresh_steps, workspace_id_or_new,
    };
use relay_backend::workflows::selector::{selector_args, selector_output_path};
use relay_backend::slack::socket_mode::{socket_frame_handling, socket_mode_enabled};

fn inputs(vars: &[(&str, &str)]) -> ConfigInputs {
    ConfigInputs {
        vars: vars.iter().map(|(k, v)| (k.to_string(), v.to_string())).collect(),
        current_dir: "/srv/relay/backend".to_string(),
        home_dir: Some("/home/relay".to_string()),
    }
}

#[test]
fn config_applies_defaults() {
    let config = Config::from_inputs(&inputs(&[("APP_BASE_URL", "http://x"), ("APP_PORT", "8080")]))
        .ok()
        .expect("config");
    assert_eq!(config.server.port, 8080);
    assert_eq!(config.server.host, "127.0.0.1");
    assert_eq!(config.server.portal_base_url, "http://x");
    assert_eq!(config.database.url, "sqlite:relay.db");
    assert_eq!(config.codex.bin, "codex");
    assert_eq!(config.codex.timeout_seconds, 1800);
    assert_eq!(config.codex.browser_task_timeout_seconds, 420);
    assert_eq!(config.hooks.timeout_seconds, 900);
    assert_eq!(config.terminal.command, "/bin/zsh");
    assert_eq!(config.paths.relay_home, "/home/relay/.relay");
    assert_eq!(config.paths.sources_dir, "/home/relay/.relay/sources");
    assert_eq!(config.paths.workflows_dir, "/srv/relay/backend/../.workflows");
}

#[test]
fn config_reports_missing_and_invalid_settings() {
    let missing = Config::from_inputs(&inputs(&[("APP_PORT", "8080")])).err().expect("missing");
    assert_eq!(missing.message(), "APP_BASE_URL must be set in the environment");
    let invalid = Config::from_inputs(&inputs(&[("APP_BASE_URL", "x"), ("APP_PORT", "70000")]))
        .err()
        .expect("invalid");
    assert_eq!(invalid.message(), "APP_PORT must be a valid u16");
}

#[test]
fn config_reads_lists_and_numbers() {
    assert_eq!(parse_id_list(" U1, ,U2,U1 "), vec!["U1".to_string(), "U2".to_string()]);
    assert_eq!(parse_bounded("65535", 65535), Some(65535));
    assert_eq!(parse_bounded("65536", 65535), None);
    assert_eq!(parse_bounded("", 10), None);
    assert_eq!(parse_bounded("1a", 10), None);
    let config = Config::from_inputs(&inputs(&[
        ("APP_BASE_URL", "x"),
        ("APP_PORT", "1"),
        ("CODEX_DEFAULT_ARGS", "  --full-auto   --model o3 "),
        ("MASTER_SLACK_USER_IDS", "U1,U2"),
    ]))
    .ok()
    .expect("config");
    assert_eq!(
        config.codex.default_args,
        vec!["--full-auto".to_string(), "--model".to_string(), "o3".to_string()]
    );
    assert_eq!(config.authorization.master_slack_user_ids, vec!["U1".to_string(), "U2".to_string()]);
}

#[test]
fn workspace_paths_follow_the_runtime_layout() {
    let config = Config::from_inputs(&inputs(&[("APP_BASE_URL", "x"), ("APP_PORT", "1")])).ok().expect("config");
    let manager = WorkspaceManager::new(Arc::new(config));
    assert_eq!(manager.source_path("web"), "/home/relay/.relay/sources/web");
    assert_eq!(manager.environment_workspace_path("web", "W1"), "/home/relay/.relay/workspaces/web/W1");
    assert_eq!(manager.general_workspace_path("W2"), "/home/relay/.relay/workspaces/general/W2");
    assert_eq!(manager.hook_timeout_seconds(), 900);
}

#[test]
fn workspace_file_paths_are_sanitised() {
    assert_eq!(sanitize_workspace_relative_path("./src//main.rs").ok().as_deref(), Some("src/main.rs"));
    assert_eq!(sanitize_workspace_relative_path("/etc/passwd").err(), Some(WorkspacePathError::Absolute));
    assert_eq!(sanitize_workspace_relative_path("a/../b").err(), Some(WorkspacePathError::ParentTraversal));
    assert_eq!(sanitize_workspace_relative_path("./.").err(), Some(WorkspacePathError::Empty));
    assert_eq!(
        WorkspacePathError::ParentTraversal.message(),
        "workspace file path cannot traverse parent directories"
    );
}

#[test]
fn git_status_lines_are_read() {
    assert_eq!(describe_git_status('?', '?'), "untracked");
    assert_eq!(describe_git_status('M', 'A'), "added");
    assert_eq!(describe_git_status(' ', 'M'), "modified");
    assert_eq!(describe_git_status('X', 'Y'), "changed");
    assert_eq!(parse_status_path("old.txt -> \"new name.txt\""), "new name.txt");
    let entry = parse_status_line("?? notes.md").expect("entry");
    assert_eq!(entry.path, "notes.md");
    assert_eq!(entry.status, "untracked");
    assert!(!entry.staged);
    assert!(entry.can_stage);
    assert!(entry.untracked);
    let staged = parse_status_line("M  src/lib.rs").expect("entry");
    assert!(staged.staged);
    assert!(!staged.can_stage);
    assert!(parse_status_line("!! target").is_none());
    assert!(parse_status_line("M a").is_none());
}

#[test]
fn blank_setup_scripts_succeed_without_running() {
    let result = skipped_hook_result();
    assert!(result.succeeded());
    assert!(!HookRunResult { stdout: String::new(), stderr: String::new(), exit_code: Some(0), timed_out: true }.succeeded());
    assert!(!HookRunResult { stdout: String::new(), stderr: String::new(), exit_code: Some(1), timed_out: false }.succeeded());
}

#[test]
fn codex_is_invoked_with_the_run_settings() {
    let config = Config::from_inputs(&inputs(&[("APP_BASE_URL", "x"), ("APP_PORT", "1"), ("CODEX_DEFAULT_ARGS", "--a --b")]))
        .ok()
        .expect("config");
    let input = RunnerInput {
        task_run_id: "R1".to_string(),
        workspace_path: "/ws/W".to_string(),
        prompt: "Do it".to_string(),
        timeout_seconds: None,
    };
    let invocation = codex_invocation(&config, &input);
    assert_eq!(invocation.program, "codex");
    assert_eq!(invocation.last_message_path, "/ws/W/.relay-codex-last-message-R1.txt");
    assert_eq!(
        invocation.args,
        vec!["exec", "--skip-git-repo-check", "--color", "never", "-o", "/ws/W/.relay-codex-last-message-R1.txt", "--a", "--b", "Do it"]
            .into_iter()
            .map(str::to_string)
            .collect::<Vec<_>>()
    );
    assert_eq!(invocation.current_dir, "/ws/W");
    assert_eq!(invocation.timeout_seconds, 1800);
    let limited = RunnerInput { timeout_seconds: Some(60), ..input };
    assert_eq!(codex_invocation(&config, &limited).timeout_seconds, 60);
}

#[test]
fn run_outputs_are_recorded() {
    let out = runner_output(WaitOutcome::Exited(false, Some(3)), "o".to_string(), "e".to_string());
    assert_eq!(out.status, "failed");
    assert_eq!(out.exit_code, Some(3));
    assert_eq!(runner_output(WaitOutcome::TimedOut, String::new(), String::new()).status, "timed_out");
    assert_eq!(runner_output(WaitOutcome::Cancelled, String::new(), String::new()).exit_code, None);
    assert_eq!(collect_lines(&vec!["a".to_string(), "b".to_string()]), "a\nb\n");
    assert_eq!(choose_last_message(Some("final".to_string()), "fallback"), "final");
    assert_eq!(choose_last_message(Some("  ".to_string()), "fallback"), "fallback");
    assert_eq!(choose_last_message(None, "fallback"), "fallback");
}

#[test]
fn sqlite_urls_name_their_file() {
    assert_eq!(sqlite_file_path("sqlite:relay.db").as_deref(), Some("relay.db"));
    assert_eq!(sqlite_file_path("sqlite:///var/db/r.db?mode=rwc").as_deref(), Some("/var/db/r.db"));
    assert_eq!(sqlite_file_path("sqlite:sqlite:x.db").as_deref(), Some("x.db"));
    assert_eq!(sqlite_file_path("sqlite::memory:"), None);
    assert_eq!(sqlite_file_path("sqlite:"), None);
    assert_eq!(sqlite_file_path("sqlite:?mode=memory"), None);
    assert_eq!(sqlite_file_path("postgres://db"), None);
}

#[test]
fn terminal_history_is_trimmed_at_a_line() {
    assert_eq!(OUTPUT_BUFFER_LIMIT, 1_000_000);
    assert_eq!(history_trim_length("short"), 0);
    let mut long = "a".repeat(OUTPUT_BUFFER_LIMIT - 5);
    long.push_str("xx\nyyyyyyyyyy");
    // The limit plus eight bytes: at least eight go, up to and including the next newline.
    assert_eq!(history_trim_length(&long), OUTPUT_BUFFER_LIMIT - 2);
    let no_newline = "b".repeat(OUTPUT_BUFFER_LIMIT + 3);
    assert_eq!(history_trim_length(&no_newline), 3);
}

#[test]
fn terminal_messages() {
    match connected_status("S1", "/bin/zsh") {
        TerminalSocketMessage::Status { status, message, exit_code } => {
            assert_eq!(status, "connected");
            assert_eq!(message.as_deref(), Some("Attached terminal for workspace S1 using `/bin/zsh`."));
            assert_eq!(exit_code, None);
        }
        _ => panic!("expected a status"),
    }
    assert!(matches!(exited_status(Some(0)), TerminalSocketMessage::Status { exit_code: Some(0), .. }));
    assert!(matches!(stream_error("eof"), TerminalSocketMessage::Error { message } if message == "Terminal stream error: eof"));
    assert_eq!(missing_workspace_error("/nope"), "workspace path does not exist: /nope");
}

fn environment(name: &str, slug: &str, aliases: &str) -> Environment {
    Environment {
        id: slug.to_string(),
        name: name.to_string(),
        slug: slug.to_string(),
        git_ssh_url: "git@x:r.git".to_string(),
        default_branch: "main".to_string(),
        aliases: aliases.to_string(),
        enabled: true,
        source_sync_status: "ready".to_string(),
        source_sync_error: None,
        source_synced_at: None,
        source_setup_script: Some(" make deps ".to_string()),
        workspace_setup_script: None,
        created_at: "t".to_string(),
        updated_at: "t".to_string(),
    }
}

#[test]
fn prompts_name_exactly_one_environment() {
    let envs = vec![environment("Web App", "web", "[\"frontend\"]"), environment("Api", "api", "not json")];
    assert_eq!(resolve_from_prompt(&envs, "fix the FRONTEND build"), Some(0));
    assert_eq!(resolve_from_prompt(&envs, "deploy the api"), Some(1));
    assert_eq!(resolve_from_prompt(&envs, "web and api"), None);
    assert_eq!(resolve_from_prompt(&envs, "nothing here"), None);
}

#[test]
fn environment_changes_are_checked() {
    let input = CreateEnvironmentInput {
        name: "Web".to_string(),
        slug: "web".to_string(),
        git_ssh_url: "git@x:web.git".to_string(),
        default_branch: "main".to_string(),
        aliases: vec!["front \"end\"".to_string()],
        enabled: None,
        source_setup_script: Some("   ".to_string()),
        workspace_setup_script: Some(" npm ci ".to_string()),
    };
    let record = environment_record(&input);
    assert_eq!(record.aliases, "[\"front \\\"end\\\"\"]");
    assert!(record.enabled);
    assert_eq!(record.source_setup_script, None);
    assert_eq!(record.workspace_setup_script.as_deref(), Some("npm ci"));
    assert_eq!(check_deletable(0), Ok(()));
    assert_eq!(check_deletable(2), Err(EnvironmentError::InUse));
    assert_eq!(
        EnvironmentError::InUse.message(),
        "environment cannot be deleted because tasks already reference it"
    );
    let mut syncing = environment("Web", "web", "[]");
    syncing.source_sync_status = "syncing".to_string();
    assert_eq!(check_refreshable(&syncing), Err(EnvironmentError::SyncInProgress));
    assert_eq!(check_refreshable(&environment("Web", "web", "[]")), Ok(()));
    assert_eq!(remote_access_error("denied"), "git ls-remote failed: denied");
}

#[test]
fn record_takes_the_written_aliases() {
    let input = CreateEnvironmentInput {
        name: "Api".to_string(),
        slug: "api".to_string(),
        git_ssh_url: "git@x:api.git".to_string(),
        default_branch: "trunk".to_string(),
        aliases: vec!["backend".to_string()],
        enabled: Some(false),
        source_setup_script: None,
        workspace_setup_script: Some("\n make \n".to_string()),
    };
    let record = record_with_aliases(&input, "[\"backend\"]".to_string());
    assert_eq!(record.name, "Api");
    assert_eq!(record.slug, "api");
    assert_eq!(record.git_ssh_url, "git@x:api.git");
    assert_eq!(record.default_branch, "trunk");
    assert_eq!(record.aliases, "[\"backend\"]");
    assert!(!record.enabled);
    assert_eq!(record.source_setup_script, None);
    assert_eq!(record.workspace_setup_script.as_deref(), Some("make"));
}

#[test]
fn source_sync_runs_in_order() {
    let env = environment("Web", "web", "[]");
    let mut sync = SourceSync::new(&env);
    let step = sync.step(SyncEvent::Started);
    assert!(matches!(step.command, Some(SyncCommand::ResetClone)));
    assert_eq!(step.logs[1].chunk, "Syncing git@x:r.git on branch main\n");
    let step = sync.step(SyncEvent::CloneReset(Ok("/src/web".to_string())));
    assert!(matches!(&step.command, Some(SyncCommand::RunHook { script, source_path }) if script == "make deps" && source_path == "/src/web"));
    let step = sync.step(SyncEvent::HookFinished(HookRunResult {
        stdout: "done".to_string(),
        stderr: String::new(),
        exit_code: Some(0),
        timed_out: false,
    }));
    assert!(matches!(step.command, Some(SyncCommand::MarkReady)));
    assert_eq!(step.logs[0].stream, LogStream::Stdout);
    assert_eq!(sync.stage, SyncStage::Finished);
    assert!(sync.step(SyncEvent::Started).command.is_none());
    assert_eq!(sync_log_chunk("line\n"), "line\n");
    assert_eq!(sync_log_chunk("line"), "line\n");
}

#[test]
fn source_sync_clears_first_and_numbers_entries_in_order() {
    let env = environment("Web", "web", "[]");
    let mut sync = SourceSync::new(&env);
    assert_eq!(sync.next_sequence, 0);
    let step = sync.step(SyncEvent::Started);
    assert!(step.clear_events);
    assert_eq!(step.logs[0].chunk, "Starting source cache sync...\n");
    assert_eq!(step.sequences, vec![0, 1]);
    let step = sync.step(SyncEvent::CloneReset(Ok("/src/web".to_string())));
    assert!(!step.clear_events);
    assert_eq!(step.sequences, vec![2, 3]);
    let step = sync.step(SyncEvent::HookFinished(HookRunResult {
        stdout: "one\ntwo".to_string(),
        stderr: "warn".to_string(),
        exit_code: Some(0),
        timed_out: false,
    }));
    assert_eq!(step.sequences, vec![4, 5, 6, 7, 8]);
    assert!(step.logs.iter().all(|l| l.chunk.ends_with('\n')));
    assert_eq!(sync.next_sequence, 9);
    let step = sync.step(SyncEvent::Started);
    assert!(!step.clear_events);
    assert!(step.sequences.is_empty());
}

#[test]
fn cancellations_are_answered() {
    let ok = cancel_outcome("R1".to_string(), true).ok().expect("cancelled");
    assert_eq!(ok.task_run_id, "R1");
    assert_eq!(ok.status, "cancellation_requested");
    assert_eq!(cancel_outcome("R1".to_string(), false).err(), Some(CancelRefusal::NoLongerActive));
    assert_eq!(CancelRefusal::UnknownThread.status(), 404);
    assert_eq!(CancelRefusal::NothingRunning.message(), "No running request found in this thread.");
}

#[test]
fn git_command_lines() {
    let steps = source_refresh_steps("main");
    assert_eq!(steps.len(), 6);
    assert_eq!(steps[0], vec!["fetch", "--depth", "1", "--prune", "origin", "main"]);
    assert_eq!(steps[3], vec!["checkout", "-B", "main", "origin/main"]);
    assert_eq!(steps[4], vec!["reset", "--hard", "origin/main"]);
    assert_eq!(
        source_clone_args("git@x:r.git", "dev", "/src/r"),
        vec!["clone", "--depth", "1", "--branch", "dev", "--single-branch", "git@x:r.git", "/src/r"]
    );
    let untracked = parse_status_line("?? new.txt").expect("entry");
    assert_eq!(diff_args(&untracked), vec!["diff", "--no-index", "--no-ext-diff", "--", "/dev/null", "new.txt"]);
    let modified = parse_status_line(" M old.txt").expect("entry");
    assert_eq!(diff_args(&modified), vec!["diff", "--no-ext-diff", "HEAD", "--", "old.txt"]);
    assert!(git_exit_accepted(true, None, &[]));
    assert!(git_exit_accepted(false, Some(1), &[1]));
    assert!(!git_exit_accepted(false, Some(2), &[1]));
    assert!(!git_exit_accepted(false, None, &[1]));
    assert_eq!(git_failure("fatal: nope"), "git command failed: fatal: nope");
    assert_eq!(workspace_id_or_new(Some("W1")), "W1");
    let fresh = workspace_id_or_new(None);
    assert_eq!(fresh.len(), 36);
    assert_ne!(fresh, workspace_id_or_new(None));
    assert_v4_uuid(&fresh);
}

fn assert_v4_uuid(text: &str) {
    let c: Vec<char> = text.chars().collect();
    assert_eq!(c.len(), 36);
    for (i, ch) in c.iter().enumerate() {
        if [8, 13, 18, 23].contains(&i) {
            assert_eq!(*ch, '-');
        } else {
            assert!(ch.is_ascii_digit() || ('a'..='f').contains(ch));
        }
    }
    assert_eq!(c[14], '4');
    assert!(['8', '9', 'a', 'b'].contains(&c[19]));
}

#[test]
fn selector_runs_codex_ephemerally() {
    let path = selector_output_path("/home/r/.relay");
    assert!(path.starts_with("/home/r/.relay/.workflow-selection-"));
    assert!(path.ends_with(".txt"));
    assert_eq!(path.len(), "/home/r/.relay/.workflow-selection-".len() + 36 + 4);
    assert_v4_uuid(&path["/home/r/.relay/.workflow-selection-".len()..path.len() - 4]);
    assert_eq!(
        selector_args("/o.txt", &vec!["--x".to_string()], "P"),
        vec!["exec", "--skip-git-repo-check", "--ephemeral", "--color", "never", "-o", "/o.txt", "--x", "P"]
    );
}

#[test]
fn socket_frames_are_acknowledged_and_dispatched() {
    let hello = socket_frame_handling(Some("hello"), Some("E1"), false);
    assert!(hello.ack.is_none() && !hello.dispatch);
    let event = socket_frame_handling(Some("events_api"), Some("E\"2"), true);
    assert_eq!(event.ack.as_deref(), Some("{\"envelope_id\":\"E\\\"2\"}"));
    assert!(event.dispatch);
    let other = socket_frame_handling(Some("disconnect"), None, true);
    assert!(other.ack.is_none() && !other.dispatch);
    let config = Config::from_inputs(&inputs(&[("APP_BASE_URL", "x"), ("APP_PORT", "1"), ("SLACK_BOT_TOKEN", "xoxb")]))
        .ok()
        .expect("config");
    assert!(!socket_mode_enabled(&config));
}

#[test]
fn appended_history_keeps_the_last_lines_within_the_limit() {
    assert_eq!(append_history("ab", "cd"), "abcd");
    let history = "a".repeat(OUTPUT_BUFFER_LIMIT - 2);
    let kept = append_history(&history, "xx\nyy");
    assert_eq!(kept, "yy");
    let kept = append_history(&"z".repeat(OUTPUT_BUFFER_LIMIT), "q");
    assert_eq!(kept.len(), OUTPUT_BUFFER_LIMIT);
}

#[test]
fn environment_refusals_have_their_messages() {
    assert_eq!(EnvironmentError::NotFound.message(), "environment not found");
    assert_eq!(EnvironmentError::SlugTaken.message(), "environment slug already exists");
    assert_eq!(EnvironmentError::SyncInProgress.message(), "environment source sync already in progress");
}

#[test]
fn record_aliases_are_a_compact_json_array() {
    let mut input = CreateEnvironmentInput {
        name: "Web".to_string(),
        slug: "web".to_string(),
        git_ssh_url: "git@x:web.git".to_string(),
        default_branch: "main".to_string(),
        aliases: vec![],
        enabled: Some(true),
        source_setup_script: None,
        workspace_setup_script: None,
    };
    assert_eq!(environment_record(&input).aliases, "[]");
    input.aliases = vec!["front".to_string(), "a\\b".to_string()];
    assert_eq!(environment_record(&input).aliases, "[\"front\",\"a\\\\b\"]");
}

#[test]
fn environment_changes_are_checked_in_order() {
    assert_eq!(check_environment_change(false, true), Err(EnvironmentError::NotFound));
    assert_eq!(check_environment_change(true, true), Err(EnvironmentError::SlugTaken));
    assert_eq!(check_environment_change(true, false), Ok(()));
}
