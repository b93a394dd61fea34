//! The handling of one Slack mention, as a sequence of decisions. Each method takes
//! what the previous commands produced, updates the request, and returns the next
//! commands, in the order in which they are to be carried out. Carrying them out
//! (the database, Slack, the workspaces and the runner) is left to the caller.
use vstd::prelude::*;
use crate::config::Config;
use crate::db::models::{Environment, Session};
use crate::environments::service::{LogStream, SyncLog, logs_view, named_environment, resolve_from_prompt};
use crate::policies::evaluator::{DecisionView, PolicyDecision, PolicyEngine};
use crate::runner::{RunnerInput, RunnerOutput};
use crate::slack::formatter::{
    json_string_literal, resolve_slack_text, resolved_payload, resolved_payload_json, resolved_text,
    to_json_string_literal,
};
use crate::slack::thread_context::{normalize_thread, normalized_thread, NormalizedThread, SlackReplyMessage};
use crate::slack::SlackEventEnvelope;
use crate::tasks::orchestrator::{
    build_reply_text, classify_request_execution_policy, directed_prompt, execution_policy,
    apply_browser_execution_directive, error_summary, is_playwright_task_workflow, kickoff_message,
    normalize_script, normalized_script, pin_playwright_workflow, playwright_cli_blocked_message,
    playwright_cli_blocked_text, playwright_task_workflow_id, reply_text, summarize_error_for_storage,
    summarize_hook_failure_for_task, CliPreflightError, RequestExecutionPolicy, binding_check,
    binding_error_message, enforce_environment_binding, kickoff_text, preflight_summary, task_hook_summary,
};
use crate::text::{
    append_str, chars_of, lines, opt_view, split_lines, str_eq, string_of, take_chars, take_prefix,
    vecs_view,
};
use crate::workflows::loader::{WorkflowDefinition, WorkflowRegistry, WorkflowView};
use crate::workflows::matcher::{env_slug_of, match_workflow, matched_workflow, scores_fit};
use crate::workflows::renderer::{env_fields, opt_workflow_view, render_prompt, rendered_prompt};
use crate::workspaces::session_workspace::{HookRunResult, PreparedWorkspace};

verus! {

/// Where the handling of a mention stands: which answer it waits for.
#[derive(Debug, Clone, Copy, PartialEq, Eq, Structural)]
pub enum RequestStage {
    AwaitRecord,
    AwaitBan,
    AwaitThread,
    AwaitViolationCount,
    AwaitSession,
    AwaitEnvironments,
    AwaitBoundEnvironment,
    AwaitDefaultEnvironment,
    AwaitSelection,
    AwaitWorkspace,
    AwaitSessionCreated,
    AwaitActiveRun,
    AwaitTaskRun,
    AwaitHook,
    AwaitPreflight,
    AwaitRun,
    Finished,
}

/// How the handling of a mention ended.
#[derive(Debug, Clone, Copy, PartialEq, Eq, Structural)]
pub enum RequestOutcome {
    /// Nothing was done: a repeated event, another kind of event, or a banned user.
    Ignored,
    /// The request was answered without a task run finishing.
    Rejected,
    /// A task ran and its reply was posted.
    Completed,
    /// A command failed; the error goes back to the caller.
    Failed,
}

/// Something to be carried out.
#[derive(Debug)]
#[allow(inconsistent_fields)]
pub enum RequestCommand {
    /// Record the event id; the answer says whether it was new.
    RecordEvent { event_id: String },
    /// Look up an active ban of the user.
    LookupBan { user_id: String },
    /// Post a message to the thread.
    PostMessage { channel_id: String, thread_ts: String, text: String },
    /// Add a reaction to a message; a failure is only logged.
    AddReaction { channel_id: String, ts: String, name: String },
    /// Remove a reaction from a message; a failure is only logged.
    RemoveReaction { channel_id: String, ts: String, name: String },
    /// Fetch the replies of the thread.
    FetchThread { channel_id: String, thread_ts: String },
    /// Record a policy violation.
    RecordViolation {
        user_id: String,
        team_id: String,
        channel_id: String,
        thread_ts: String,
        kind: String,
        rule_id: String,
        excerpt: String,
    },
    /// Count the user's recent critical violations.
    CountViolations { user_id: String },
    /// Ban the user.
    InsertBan { user_id: String, reason: String },
    /// Find the session of the thread.
    FindSession { team_id: String, channel_id: String, thread_ts: String },
    /// List the enabled environments, to find the one the request names.
    ListEnvironments,
    /// Load the environment with this id.
    GetEnvironment { id: String },
    /// Load the environment with this slug.
    GetEnvironmentBySlug { slug: String },
    /// Ask the workflow selector, with the request's text, thread and environment.
    SelectWorkflow,
    /// Make sure the environment's source clone exists, then prepare a workspace from it.
    PrepareRepoWorkspace { slug: String, git_ssh_url: String, default_branch: String },
    /// Prepare a general workspace.
    PrepareGeneralWorkspace,
    /// Create an idle session for the thread.
    CreateSession {
        team_id: String,
        channel_id: String,
        thread_ts: String,
        workspace_id: String,
        workspace_path: String,
        environment_id: Option<String>,
        workflow_id: Option<String>,
    },
    /// Check whether the session has an active run.
    CheckActiveRun { session_id: String },
    /// Store a reply of the session and post it to the thread.
    Reply { session_id: String, task_run_id: Option<String>, channel_id: String, thread_ts: String, text: String },
    /// Set the status of the session.
    UpdateSessionStatus { session_id: String, status: String, workflow_id: Option<String> },
    /// Insert a task run of the runner in use.
    InsertTaskRun {
        session_id: String,
        trigger_message_ts: String,
        workflow_id: Option<String>,
        workflow_name: Option<String>,
        status: String,
    },
    /// Store the inbound message of a task run.
    InsertTaskMessage {
        session_id: String,
        task_run_id: String,
        user_id: String,
        raw_payload: String,
        resolved_payload: String,
    },
    /// Run the workspace setup script.
    RunHook { workspace_path: String, script: String },
    /// Store terminal events of a task run, numbered from 0 in order.
    InsertTerminalEvents { task_run_id: String, events: Vec<SyncLog> },
    /// Set the status of a task run.
    UpdateTaskRun { task_run_id: String, status: String, exit_code: Option<i64>, error_summary: Option<String> },
    /// Check that the Playwright CLI can be used.
    Preflight,
    /// Run the task.
    RunTask(RunnerInput),
}

/// The value of a command.
pub enum CommandView {
    RecordEvent(Seq<char>),
    LookupBan(Seq<char>),
    PostMessage(Seq<char>, Seq<char>, Seq<char>),
    AddReaction(Seq<char>, Seq<char>, Seq<char>),
    RemoveReaction(Seq<char>, Seq<char>, Seq<char>),
    FetchThread(Seq<char>, Seq<char>),
    RecordViolation(Seq<char>, Seq<char>, Seq<char>, Seq<char>, Seq<char>, Seq<char>, Seq<char>),
    CountViolations(Seq<char>),
    InsertBan(Seq<char>, Seq<char>),
    FindSession(Seq<char>, Seq<char>, Seq<char>),
    ListEnvironments,
    GetEnvironment(Seq<char>),
    GetEnvironmentBySlug(Seq<char>),
    SelectWorkflow,
    PrepareRepoWorkspace(Seq<char>, Seq<char>, Seq<char>),
    PrepareGeneralWorkspace,
    CreateSession(Seq<char>, Seq<char>, Seq<char>, Seq<char>, Seq<char>, Option<Seq<char>>, Option<Seq<char>>),
    CheckActiveRun(Seq<char>),
    Reply(Seq<char>, Option<Seq<char>>, Seq<char>, Seq<char>, Seq<char>),
    UpdateSessionStatus(Seq<char>, Seq<char>, Option<Seq<char>>),
    InsertTaskRun(Seq<char>, Seq<char>, Option<Seq<char>>, Option<Seq<char>>, Seq<char>),
    InsertTaskMessage(Seq<char>, Seq<char>, Seq<char>, Seq<char>, Seq<char>),
    RunHook(Seq<char>, Seq<char>),
    InsertTerminalEvents(Seq<char>, Seq<(LogStream, Seq<char>)>),
    UpdateTaskRun(Seq<char>, Seq<char>, Option<i64>, Option<Seq<char>>),
    Preflight,
    RunTask(Seq<char>, Seq<char>, Seq<char>, Option<u64>),
}

impl View for RequestCommand {
    type V = CommandView;

    open spec fn view(&self) -> CommandView {
        match self {
            RequestCommand::RecordEvent { event_id } => CommandView::RecordEvent(event_id@),
            RequestCommand::LookupBan { user_id } => CommandView::LookupBan(user_id@),
            RequestCommand::PostMessage { channel_id, thread_ts, text } => CommandView::PostMessage(
                channel_id@,
                thread_ts@,
                text@,
            ),
            RequestCommand::AddReaction { channel_id, ts, name } => CommandView::AddReaction(channel_id@, ts@, name@),
            RequestCommand::RemoveReaction { channel_id, ts, name } => CommandView::RemoveReaction(
                channel_id@,
                ts@,
                name@,
            ),
            RequestCommand::FetchThread { channel_id, thread_ts } => CommandView::FetchThread(channel_id@, thread_ts@),
            RequestCommand::RecordViolation { user_id, team_id, channel_id, thread_ts, kind, rule_id, excerpt } =>
                CommandView::RecordViolation(
                user_id@,
                team_id@,
                channel_id@,
                thread_ts@,
                kind@,
                rule_id@,
                excerpt@,
            ),
            RequestCommand::CountViolations { user_id } => CommandView::CountViolations(user_id@),
            RequestCommand::InsertBan { user_id, reason } => CommandView::InsertBan(user_id@, reason@),
            RequestCommand::FindSession { team_id, channel_id, thread_ts } => CommandView::FindSession(
                team_id@,
                channel_id@,
                thread_ts@,
            ),
            RequestCommand::ListEnvironments => CommandView::ListEnvironments,
            RequestCommand::GetEnvironment { id } => CommandView::GetEnvironment(id@),
            RequestCommand::GetEnvironmentBySlug { slug } => CommandView::GetEnvironmentBySlug(slug@),
            RequestCommand::SelectWorkflow => CommandView::SelectWorkflow,
            RequestCommand::PrepareRepoWorkspace { slug, git_ssh_url, default_branch } =>
                CommandView::PrepareRepoWorkspace(slug@, git_ssh_url@, default_branch@),
            RequestCommand::PrepareGeneralWorkspace => CommandView::PrepareGeneralWorkspace,
            RequestCommand::CreateSession {
                team_id,
                channel_id,
                thread_ts,
                workspace_id,
                workspace_path,
                environment_id,
                workflow_id,
            } => CommandView::CreateSession(
                team_id@,
                channel_id@,
                thread_ts@,
                workspace_id@,
                workspace_path@,
                opt_view(*environment_id),
                opt_view(*workflow_id),
            ),
            RequestCommand::CheckActiveRun { session_id } => CommandView::CheckActiveRun(session_id@),
            RequestCommand::Reply { session_id, task_run_id, channel_id, thread_ts, text } => CommandView::Reply(
                session_id@,
                opt_view(*task_run_id),
                channel_id@,
                thread_ts@,
                text@,
            ),
            RequestCommand::UpdateSessionStatus { session_id, status, workflow_id } =>
                CommandView::UpdateSessionStatus(session_id@, status@, opt_view(*workflow_id)),
            RequestCommand::InsertTaskRun { session_id, trigger_message_ts, workflow_id, workflow_name, status } =>
                CommandView::InsertTaskRun(
                session_id@,
                trigger_message_ts@,
                opt_view(*workflow_id),
                opt_view(*workflow_name),
                status@,
            ),
            RequestCommand::InsertTaskMessage { session_id, task_run_id, user_id, raw_payload, resolved_payload } =>
                CommandView::InsertTaskMessage(
                session_id@,
                task_run_id@,
                user_id@,
                raw_payload@,
                resolved_payload@,
            ),
            RequestCommand::RunHook { workspace_path, script } => CommandView::RunHook(workspace_path@, script@),
            RequestCommand::InsertTerminalEvents { task_run_id, events } => CommandView::InsertTerminalEvents(
                task_run_id@,
                logs_view(events@),
            ),
            RequestCommand::UpdateTaskRun { task_run_id, status, exit_code, error_summary } =>
                CommandView::UpdateTaskRun(task_run_id@, status@, *exit_code, opt_view(*error_summary)),
            RequestCommand::Preflight => CommandView::Preflight,
            RequestCommand::RunTask(input) => CommandView::RunTask(
                input.task_run_id@,
                input.workspace_path@,
                input.prompt@,
                input.timeout_seconds,
            ),
        }
    }
}

/// The values of a list of commands.
pub open spec fn commands_view(v: Seq<RequestCommand>) -> Seq<CommandView> {
    v.map_values(|c: RequestCommand| c@)
}

// ---------------------------------------------------------------------------
// Texts
// ---------------------------------------------------------------------------

pub open spec fn ban_notice(expires_at: Seq<char>) -> Seq<char> {
    "Your access is temporarily blocked until "@ + expires_at + " because of repeated critical requests."@
}

pub open spec fn non_master_denied_text(title: Seq<char>) -> Seq<char> {
    "Request denied. Non-master users can only ask for approved tasks. Policy: "@ + title + "."@
}

pub open spec fn critical_denied_text(title: Seq<char>) -> Seq<char> {
    "Request denied. This falls under the critical deny policy: "@ + title + "."@
}

pub open spec fn other_environment_text() -> Seq<char> {
    "This thread is already bound to a different environment. Start a new thread to switch environments."@
}

pub open spec fn general_thread_text() -> Seq<char> {
    "This thread started as a general workspace and cannot be rebound to an environment."@
}

pub open spec fn active_run_text() -> Seq<char> {
    "This thread already has an active task run. Wait for it to finish before sending another request."@
}

pub open spec fn hook_failed_text(summary: Seq<char>) -> Seq<char> {
    "Task failed before execution. "@ + summary
}

/// The stored raw form of an inbound mention: a JSON object of its text, user,
/// channel and thread, with the keys in order.
pub open spec fn raw_inbound(text: Seq<char>, user_id: Seq<char>, channel_id: Seq<char>, thread_ts: Seq<char>) -> Seq<
    char,
> {
    "{\"channel_id\":"@ + json_string_literal(channel_id) + ",\"text\":"@ + json_string_literal(text)
        + ",\"thread_ts\":"@ + json_string_literal(thread_ts) + ",\"user_id\":"@ + json_string_literal(user_id)
        + "}"@
}

/// The reactions that close the handling of a mention: the "eyes" go, and a white
/// tick or a cross comes.
pub open spec fn closing_reactions(channel_id: Seq<char>, ts: Seq<char>, success: bool) -> Seq<CommandView> {
    seq![
        CommandView::RemoveReaction(channel_id, ts, "eyes"@),
        CommandView::AddReaction(channel_id, ts, if success { "white-tick"@ } else { "x"@ }),
    ]
}

/// The terminal events stored for a setup script: a header, each standard-output
/// line, each standard-error line, and a closing line that says whether it timed
/// out, succeeded or failed.
pub open spec fn hook_terminal_events(h: HookRunResult) -> Seq<(LogStream, Seq<char>)> {
    seq![(LogStream::Stdout, "[workspace setup] Running workspace setup script\n"@)]
        + lines(h.stdout@).map_values(|l: Seq<char>| (LogStream::Stdout, l + "\n"@))
        + lines(h.stderr@).map_values(|l: Seq<char>| (LogStream::Stderr, l + "\n"@))
        + seq![
        if h.timed_out {
            (LogStream::Stderr, "[workspace setup] script timed out\n"@)
        } else if h.exit_code == Some(0i64) {
            (LogStream::Stdout, "[workspace setup] completed successfully\n"@)
        } else {
            (LogStream::Stdout, "[workspace setup] failed\n"@)
        },
    ]
}

// ---------------------------------------------------------------------------
// The request
// ---------------------------------------------------------------------------

/// The handling of one mention: what is known of it so far and where it stands.
#[derive(Debug)]
pub struct RequestFlow {
    pub stage: RequestStage,
    /// How it ended, once it has.
    pub outcome: Option<RequestOutcome>,
    /// Why it failed, when a decision failed it.
    pub failure: Option<String>,
    /// Whether the "eyes" reaction was asked for, so that closing reactions are owed.
    pub reacting: bool,
    /// An app mention with a user and a channel.
    pub eligible: bool,
    pub user_id: String,
    pub text: String,
    pub channel_id: String,
    pub thread_ts: String,
    pub trigger_ts: String,
    pub team_id: String,
    /// The text with its Slack markup resolved.
    pub request_text: String,
    pub policy: RequestExecutionPolicy,
    pub thread: NormalizedThread,
    /// The title of the critical rule that denied the request.
    pub denial_title: String,
    pub existing_session: Option<Session>,
    /// The environment the request names.
    pub requested: Option<Environment>,
    pub environment: Option<Environment>,
    pub workflow: Option<WorkflowDefinition>,
    pub session_id: String,
    pub workspace_path: String,
    pub setup_script: Option<String>,
    pub task_run_id: String,
}

pub open spec fn or_empty(s: Option<Seq<char>>) -> Seq<char> {
    match s {
        Some(v) => v,
        None => seq![],
    }
}

/// The thread a mention belongs to: its thread timestamp, else its own timestamp,
/// else empty.
pub open spec fn mention_thread(e: SlackMessageEventView) -> Seq<char> {
    match e.thread_ts {
        Some(t) => t,
        None => or_empty(e.ts),
    }
}

/// The values of a message event that the handling reads.
pub struct SlackMessageEventView {
    pub event_type: Seq<char>,
    pub user: Option<Seq<char>>,
    pub text: Option<Seq<char>>,
    pub channel: Option<Seq<char>>,
    pub ts: Option<Seq<char>>,
    pub thread_ts: Option<Seq<char>>,
}

pub open spec fn event_view(e: crate::slack::SlackMessageEvent) -> SlackMessageEventView {
    SlackMessageEventView {
        event_type: e.event_type@,
        user: opt_view(e.user),
        text: opt_view(e.text),
        channel: opt_view(e.channel),
        ts: opt_view(e.ts),
        thread_ts: opt_view(e.thread_ts),
    }
}

/// The parts of a request fixed when it arrives.
pub open spec fn same_mention(a: RequestFlow, b: RequestFlow) -> bool {
    &&& a.eligible == b.eligible
    &&& a.user_id@ == b.user_id@
    &&& a.text@ == b.text@
    &&& a.channel_id@ == b.channel_id@
    &&& a.thread_ts@ == b.thread_ts@
    &&& a.trigger_ts@ == b.trigger_ts@
    &&& a.team_id@ == b.team_id@
}

/// The parts of a request read from its thread and the policies.
pub open spec fn same_reading(a: RequestFlow, b: RequestFlow) -> bool {
    &&& a.request_text@ == b.request_text@
    &&& a.policy == b.policy
    &&& a.thread@ == b.thread@
    &&& a.denial_title@ == b.denial_title@
}

/// Where a request runs: its session, environment and workflow.
pub open spec fn same_binding(a: RequestFlow, b: RequestFlow) -> bool {
    &&& a.existing_session == b.existing_session
    &&& a.requested == b.requested
    &&& a.environment == b.environment
    &&& a.workflow == b.workflow
    &&& a.session_id@ == b.session_id@
    &&& a.workspace_path@ == b.workspace_path@
    &&& opt_view(a.setup_script) == opt_view(b.setup_script)
    &&& a.task_run_id@ == b.task_run_id@
}

/// Nothing changes.
pub open spec fn unchanged(a: RequestFlow, b: RequestFlow) -> bool {
    &&& a.stage == b.stage
    &&& a.outcome == b.outcome
    &&& opt_view(a.failure) == opt_view(b.failure)
    &&& a.reacting == b.reacting
    &&& same_mention(a, b)
    &&& same_reading(a, b)
    &&& same_binding(a, b)
}

/// The request ends, with the given outcome, and nothing else changes.
pub open spec fn ends_as(a: RequestFlow, b: RequestFlow, outcome: RequestOutcome) -> bool {
    &&& b.stage == RequestStage::Finished
    &&& b.outcome == Some(outcome)
    &&& opt_view(b.failure) == opt_view(a.failure)
    &&& b.reacting == a.reacting
    &&& same_mention(a, b)
    &&& same_reading(a, b)
    &&& same_binding(a, b)
}

fn push_command(cmds: &mut Vec<RequestCommand>, c: RequestCommand)
    ensures
        commands_view(final(cmds)@) == commands_view(old(cmds)@).push(c@),
{
    let ghost before = commands_view(cmds@);
    let ghost cv = c@;
    cmds.push(c);
    assert(commands_view(cmds@) =~= before.push(cv));
}

fn push_post(cmds: &mut Vec<RequestCommand>, channel_id: &String, thread_ts: &String, text: String)
    ensures
        commands_view(final(cmds)@) == commands_view(old(cmds)@).push(
            CommandView::PostMessage(channel_id@, thread_ts@, text@),
        ),
{
    push_command(cmds, RequestCommand::PostMessage { channel_id: channel_id.clone(), thread_ts: thread_ts.clone(), text });
}

fn push_closing(cmds: &mut Vec<RequestCommand>, channel_id: &String, ts: &String, success: bool)
    ensures
        commands_view(final(cmds)@) == commands_view(old(cmds)@) + closing_reactions(channel_id@, ts@, success),
{
    let ghost before = commands_view(cmds@);
    push_command(
        cmds,
        RequestCommand::RemoveReaction { channel_id: channel_id.clone(), ts: ts.clone(), name: "eyes".to_string() },
    );
    let name = if success {
        "white-tick".to_string()
    } else {
        "x".to_string()
    };
    push_command(cmds, RequestCommand::AddReaction { channel_id: channel_id.clone(), ts: ts.clone(), name });
    assert(commands_view(cmds@) =~= before + closing_reactions(channel_id@, ts@, success));
}

fn text_of(s: &Option<String>) -> (r: String)
    ensures
        r@ == or_empty(opt_view(*s)),
{
    match s {
        Some(v) => v.clone(),
        None => String::new(),
    }
}

/// Joins texts.
fn concat(parts: &[&str]) -> (r: String)
    ensures
        r@ == concat_all(parts@.map_values(|p: &str| p@)),
{
    let mut v: Vec<char> = Vec::new();
    let ghost ps = parts@.map_values(|p: &str| p@);
    let mut i: usize = 0;
    while i < parts.len()
        invariant
            i <= parts.len(),
            ps == parts@.map_values(|p: &str| p@),
            v@ == concat_all(ps.take(i as int)),
        decreases parts.len() - i,
    {
        append_str(&mut v, parts[i]);
        proof {
            assert(ps.take(i + 1).drop_last() =~= ps.take(i as int));
        }
        i = i + 1;
    }
    assert(ps.take(parts.len() as int) =~= ps);
    string_of(&v)
}

pub open spec fn concat_all(parts: Seq<Seq<char>>) -> Seq<char>
    decreases parts.len(),
{
    if parts.len() == 0 {
        seq![]
    } else {
        concat_all(parts.drop_last()) + parts.last()
    }
}

impl RequestFlow {
    /// Starts the handling of an envelope: its event id is recorded first.
    pub fn new(envelope: SlackEventEnvelope) -> (r: (RequestFlow, Vec<RequestCommand>))
        ensures
            ({
                let e = event_view(envelope.payload.event);
                let f = r.0;
                &&& f.stage == RequestStage::AwaitRecord
                &&& f.outcome is None
                &&& f.failure is None
                &&& !f.reacting
                &&& f.eligible == (e.event_type == "app_mention"@ && e.user is Some && e.channel is Some)
                &&& f.user_id@ == or_empty(e.user)
                &&& f.text@ == or_empty(e.text)
                &&& f.channel_id@ == or_empty(e.channel)
                &&& f.thread_ts@ == mention_thread(e)
                &&& f.trigger_ts@ == (match e.ts {
                    Some(t) => t,
                    None => mention_thread(e),
                })
                &&& f.team_id@ == (match opt_view(envelope.payload.team_id) {
                    Some(t) => t,
                    None => "unknown-team"@,
                })
                &&& f.existing_session is None
                &&& f.requested is None
                &&& f.environment is None
                &&& f.workflow is None
                &&& f.setup_script is None
                &&& commands_view(r.1@) == seq![CommandView::RecordEvent(envelope.payload.event_id@)]
            }),
    {
        let event = &envelope.payload.event;
        let eligible = str_eq(event.event_type.as_str(), "app_mention") && event.user.is_some()
            && event.channel.is_some();
        let thread_ts = match &event.thread_ts {
            Some(t) => t.clone(),
            None => text_of(&event.ts),
        };
        let trigger_ts = match &event.ts {
            Some(t) => t.clone(),
            None => thread_ts.clone(),
        };
        let team_id = match &envelope.payload.team_id {
            Some(t) => t.clone(),
            None => "unknown-team".to_string(),
        };
        let flow = RequestFlow {
            stage: RequestStage::AwaitRecord,
            outcome: None,
            failure: None,
            reacting: false,
            eligible,
            user_id: text_of(&event.user),
            text: text_of(&event.text),
            channel_id: text_of(&event.channel),
            thread_ts,
            trigger_ts,
            team_id,
            request_text: String::new(),
            policy: RequestExecutionPolicy {
                is_browser_task: false,
                explicit_playwright_requested: false,
                explicit_cli_playwright_requested: false,
            },
            thread: NormalizedThread { channel_id: String::new(), thread_ts: String::new(), messages: Vec::new() },
            denial_title: String::new(),
            existing_session: None,
            requested: None,
            environment: None,
            workflow: None,
            session_id: String::new(),
            workspace_path: String::new(),
            setup_script: None,
            task_run_id: String::new(),
        };
        let mut cmds: Vec<RequestCommand> = Vec::new();
        push_command(&mut cmds, RequestCommand::RecordEvent { event_id: envelope.payload.event_id.clone() });
        assert(commands_view(cmds@) =~= seq![CommandView::RecordEvent(envelope.payload.event_id@)]);
        (flow, cmds)
    }

    /// The event was recorded; `fresh` says whether it was new. A repeated event, or
    /// one that is not an app mention with a user and a channel, ends the handling.
    /// Otherwise the user's bans are looked up.
    pub fn on_recorded(&mut self, fresh: bool) -> (r: Vec<RequestCommand>)
        ensures
            old(self).stage != RequestStage::AwaitRecord ==> unchanged(*old(self), *final(self)) && r@.len() == 0,
            old(self).stage == RequestStage::AwaitRecord && !(fresh && old(self).eligible) ==> ends_as(
                *old(self),
                *final(self),
                RequestOutcome::Ignored,
            ) && r@.len() == 0,
            old(self).stage == RequestStage::AwaitRecord && fresh && old(self).eligible ==> {
                &&& final(self).stage == RequestStage::AwaitBan
                &&& final(self).outcome == old(self).outcome
                &&& opt_view(final(self).failure) == opt_view(old(self).failure)
                &&& final(self).reacting == old(self).reacting
                &&& same_mention(*old(self), *final(self))
                &&& same_reading(*old(self), *final(self))
                &&& same_binding(*old(self), *final(self))
                &&& commands_view(r@) == seq![CommandView::LookupBan(old(self).user_id@)]
            },
    {
        let mut cmds: Vec<RequestCommand> = Vec::new();
        if self.stage != RequestStage::AwaitRecord {
            return cmds;
        }
        if !(fresh && self.eligible) {
            self.stage = RequestStage::Finished;
            self.outcome = Some(RequestOutcome::Ignored);
            return cmds;
        }
        self.stage = RequestStage::AwaitBan;
        push_command(&mut cmds, RequestCommand::LookupBan { user_id: self.user_id.clone() });
        assert(commands_view(cmds@) =~= seq![CommandView::LookupBan(old(self).user_id@)]);
        cmds
    }
}

impl RequestFlow {
    /// The ban lookup answered. A banned user is told until when, and nothing else
    /// happens. Otherwise the mention gets the "eyes" reaction and the thread is
    /// fetched: whoever sent it, the policies decide only once the thread is loaded.
    pub fn on_ban_checked(&mut self, ban_expires_at: Option<String>) -> (r: Vec<RequestCommand>)
        ensures
            old(self).stage != RequestStage::AwaitBan ==> unchanged(*old(self), *final(self)) && r@.len() == 0,
            old(self).stage == RequestStage::AwaitBan && ban_expires_at is Some ==> ends_as(
                *old(self),
                *final(self),
                RequestOutcome::Ignored,
            ) && commands_view(r@) == seq![
                CommandView::PostMessage(
                    old(self).channel_id@,
                    old(self).thread_ts@,
                    ban_notice(ban_expires_at->Some_0@),
                ),
            ],
            old(self).stage == RequestStage::AwaitBan && ban_expires_at is None ==> {
                &&& final(self).stage == RequestStage::AwaitThread
                &&& final(self).outcome == old(self).outcome
                &&& final(self).reacting
                &&& opt_view(final(self).failure) == opt_view(old(self).failure)
                &&& same_mention(*old(self), *final(self))
                &&& same_reading(*old(self), *final(self))
                &&& same_binding(*old(self), *final(self))
                &&& commands_view(r@) == seq![
                    CommandView::AddReaction(old(self).channel_id@, old(self).trigger_ts@, "eyes"@),
                    CommandView::FetchThread(old(self).channel_id@, old(self).thread_ts@),
                ]
            },
    {
        let mut cmds: Vec<RequestCommand> = Vec::new();
        if self.stage != RequestStage::AwaitBan {
            return cmds;
        }
        match ban_expires_at {
            Some(expires_at) => {
                let text = concat(
                    &[
                        "Your access is temporarily blocked until ",
                        expires_at.as_str(),
                        " because of repeated critical requests.",
                    ],
                );
                proof {
                    reveal_with_fuel(concat_all, 4);
                }
                assert(text@ == ban_notice(expires_at@));
                push_post(&mut cmds, &self.channel_id, &self.thread_ts, text);
                self.stage = RequestStage::Finished;
                self.outcome = Some(RequestOutcome::Ignored);
                assert(commands_view(cmds@) =~= seq![
                    CommandView::PostMessage(old(self).channel_id@, old(self).thread_ts@, ban_notice(expires_at@)),
                ]);
                cmds
            },
            None => {
                self.reacting = true;
                push_command(
                    &mut cmds,
                    RequestCommand::AddReaction {
                        channel_id: self.channel_id.clone(),
                        ts: self.trigger_ts.clone(),
                        name: "eyes".to_string(),
                    },
                );
                push_command(
                    &mut cmds,
                    RequestCommand::FetchThread { channel_id: self.channel_id.clone(), thread_ts: self.thread_ts.clone() },
                );
                self.stage = RequestStage::AwaitThread;
                assert(commands_view(cmds@) =~= seq![
                    CommandView::AddReaction(old(self).channel_id@, old(self).trigger_ts@, "eyes"@),
                    CommandView::FetchThread(old(self).channel_id@, old(self).thread_ts@),
                ]);
                cmds
            },
        }
    }
}

impl RequestFlow {
    /// The thread was fetched. It is normalised, the mention's markup is resolved,
    /// the request is classified, and the policies decide: an allowed request looks
    /// for the thread's session; one that the non-master policy denies is answered
    /// with the policy's name and closes as rejected; one that a critical rule denies
    /// is recorded as a violation (with the first 500 characters of the request) and
    /// the user's recent violations are counted.
    pub fn on_thread_fetched(&mut self, policies: &PolicyEngine, messages: Vec<SlackReplyMessage>) -> (r: Vec<
        RequestCommand,
    >)
        ensures
            old(self).stage != RequestStage::AwaitThread ==> unchanged(*old(self), *final(self)) && r@.len() == 0,
            old(self).stage == RequestStage::AwaitThread ==> {
                let o = *old(self);
                let request = resolved_text(o.text@);
                &&& final(self).thread@ == normalized_thread(o.channel_id@, o.thread_ts@, messages@)
                &&& final(self).request_text@ == request
                &&& final(self).policy == execution_policy(request)
                &&& final(self).reacting == o.reacting
                &&& opt_view(final(self).failure) == opt_view(o.failure)
                &&& same_mention(o, *final(self))
                &&& same_binding(o, *final(self))
                &&& match policies.decision(o.user_id@, request) {
                    DecisionView::Allowed => {
                        &&& final(self).stage == RequestStage::AwaitSession
                        &&& final(self).outcome == o.outcome
                        &&& final(self).denial_title@ == o.denial_title@
                        &&& commands_view(r@) == seq![CommandView::FindSession(o.team_id@, o.channel_id@, o.thread_ts@)]
                    },
                    DecisionView::NonMasterDenied(rule) => {
                        &&& final(self).stage == RequestStage::Finished
                        &&& final(self).outcome == Some(RequestOutcome::Rejected)
                        &&& final(self).denial_title@ == o.denial_title@
                        &&& commands_view(r@) == seq![
                            CommandView::PostMessage(o.channel_id@, o.thread_ts@, non_master_denied_text(rule.title)),
                        ] + closing_reactions(o.channel_id@, o.trigger_ts@, false)
                    },
                    DecisionView::CriticalDenied(rule) => {
                        &&& final(self).stage == RequestStage::AwaitViolationCount
                        &&& final(self).outcome == o.outcome
                        &&& final(self).denial_title@ == rule.title
                        &&& commands_view(r@) == seq![
                            CommandView::RecordViolation(
                                o.user_id@,
                                o.team_id@,
                                o.channel_id@,
                                o.thread_ts@,
                                "critical_deny"@,
                                rule.id,
                                take_chars(request, 500),
                            ),
                            CommandView::CountViolations(o.user_id@),
                        ]
                    },
                }
            },
    {
        let mut cmds: Vec<RequestCommand> = Vec::new();
        if self.stage != RequestStage::AwaitThread {
            return cmds;
        }
        let normalized = normalize_thread(self.channel_id.as_str(), self.thread_ts.as_str(), messages);
        match normalized {
            Ok(t) => {
                self.thread = t;
            },
            Err(_) => {
                assert(false);
            },
        }
        let request_text = resolve_slack_text(self.text.as_str());
        self.policy = classify_request_execution_policy(request_text.as_str());
        let decision = policies.evaluate(self.user_id.as_str(), request_text.as_str());
        self.request_text = request_text;
        match decision {
            PolicyDecision::Allowed => {
                push_command(
                    &mut cmds,
                    RequestCommand::FindSession {
                        team_id: self.team_id.clone(),
                        channel_id: self.channel_id.clone(),
                        thread_ts: self.thread_ts.clone(),
                    },
                );
                self.stage = RequestStage::AwaitSession;
                assert(commands_view(cmds@) =~= seq![
                    CommandView::FindSession(self.team_id@, self.channel_id@, self.thread_ts@),
                ]);
                cmds
            },
            PolicyDecision::NonMasterDenied(rule) => {
                let text = concat(
                    &[
                        "Request denied. Non-master users can only ask for approved tasks. Policy: ",
                        rule.title.as_str(),
                        ".",
                    ],
                );
                proof {
                    reveal_with_fuel(concat_all, 4);
                }
                assert(text@ == non_master_denied_text(rule.title@));
                let ghost before = commands_view(cmds@);
                push_post(&mut cmds, &self.channel_id, &self.thread_ts, text);
                push_closing(&mut cmds, &self.channel_id, &self.trigger_ts, false);
                self.stage = RequestStage::Finished;
                self.outcome = Some(RequestOutcome::Rejected);
                assert(commands_view(cmds@) =~= seq![
                    CommandView::PostMessage(self.channel_id@, self.thread_ts@, non_master_denied_text(rule.title@)),
                ] + closing_reactions(self.channel_id@, self.trigger_ts@, false));
                cmds
            },
            PolicyDecision::CriticalDenied(rule) => {
                let rv = chars_of(self.request_text.as_str());
                let excerpt = string_of(&take_prefix(&rv, 500));
                push_command(
                    &mut cmds,
                    RequestCommand::RecordViolation {
                        user_id: self.user_id.clone(),
                        team_id: self.team_id.clone(),
                        channel_id: self.channel_id.clone(),
                        thread_ts: self.thread_ts.clone(),
                        kind: "critical_deny".to_string(),
                        rule_id: rule.id.clone(),
                        excerpt,
                    },
                );
                push_command(&mut cmds, RequestCommand::CountViolations { user_id: self.user_id.clone() });
                self.denial_title = rule.title;
                self.stage = RequestStage::AwaitViolationCount;
                assert(commands_view(cmds@) =~= seq![
                    CommandView::RecordViolation(
                        self.user_id@,
                        self.team_id@,
                        self.channel_id@,
                        self.thread_ts@,
                        "critical_deny"@,
                        rule.id@,
                        take_chars(self.request_text@, 500),
                    ),
                    CommandView::CountViolations(self.user_id@),
                ]);
                cmds
            },
        }
    }

    /// The user's recent critical violations were counted: from the second one on,
    /// the user is banned. The request is answered with the critical rule's title
    /// and closes as rejected.
    pub fn on_violations_counted(&mut self, count: i64) -> (r: Vec<RequestCommand>)
        ensures
            old(self).stage != RequestStage::AwaitViolationCount ==> unchanged(*old(self), *final(self)) && r@.len()
                == 0,
            old(self).stage == RequestStage::AwaitViolationCount ==> {
                let o = *old(self);
                &&& ends_as(o, *final(self), RequestOutcome::Rejected)
                &&& commands_view(r@) == (if count >= 2 {
                    seq![CommandView::InsertBan(o.user_id@, "Repeated critical deny requests"@)]
                } else {
                    seq![]
                }) + seq![CommandView::PostMessage(o.channel_id@, o.thread_ts@, critical_denied_text(o.denial_title@))]
                    + closing_reactions(o.channel_id@, o.trigger_ts@, false)
            },
    {
        let mut cmds: Vec<RequestCommand> = Vec::new();
        if self.stage != RequestStage::AwaitViolationCount {
            return cmds;
        }
        if count >= 2 {
            push_command(
                &mut cmds,
                RequestCommand::InsertBan {
                    user_id: self.user_id.clone(),
                    reason: "Repeated critical deny requests".to_string(),
                },
            );
        }
        let ghost bans = commands_view(cmds@);
        let text = concat(
            &["Request denied. This falls under the critical deny policy: ", self.denial_title.as_str(), "."],
        );
        proof {
            reveal_with_fuel(concat_all, 4);
        }
        assert(text@ == critical_denied_text(self.denial_title@));
        push_post(&mut cmds, &self.channel_id, &self.thread_ts, text);
        push_closing(&mut cmds, &self.channel_id, &self.trigger_ts, false);
        self.stage = RequestStage::Finished;
        self.outcome = Some(RequestOutcome::Rejected);
        assert(bans =~= (if count >= 2 {
            seq![CommandView::InsertBan(self.user_id@, "Repeated critical deny requests"@)]
        } else {
            seq![]
        }));
        assert(commands_view(cmds@) =~= bans + seq![
            CommandView::PostMessage(self.channel_id@, self.thread_ts@, critical_denied_text(self.denial_title@)),
        ] + closing_reactions(self.channel_id@, self.trigger_ts@, false));
        cmds
    }
}

/// The id of an optional environment.
pub open spec fn env_id_of(e: Option<Environment>) -> Option<Seq<char>> {
    match e {
        Some(x) => Some(x.id@),
        None => None,
    }
}

/// The slug of an optional environment.
pub open spec fn slug_of(e: Option<Environment>) -> Option<Seq<char>> {
    match e {
        Some(x) => Some(x.slug@),
        None => None,
    }
}

/// The value of an optional workflow.
pub open spec fn wf_view(w: Option<WorkflowDefinition>) -> Option<WorkflowView> {
    match w {
        Some(x) => Some(x@),
        None => None,
    }
}

/// Once the environment and the workflow are known, the thread's session is used:
/// an existing one must keep its binding (else the request fails with the binding's
/// message) and is checked for an active run; without one, a workspace is prepared,
/// from the environment's source clone or a general one.
pub open spec fn session_step(o: RequestFlow, f: RequestFlow, cmds: Seq<CommandView>) -> bool {
    &&& f.reacting == o.reacting
    &&& same_mention(o, f)
    &&& same_reading(o, f)
    &&& f.existing_session == o.existing_session
    &&& f.setup_script == o.setup_script
    &&& f.task_run_id@ == o.task_run_id@
    &&& match f.existing_session {
        Some(s) => match binding_check(opt_view(s.environment_id), env_id_of(f.environment)) {
            Some(e) => {
                &&& f.stage == RequestStage::Finished
                &&& f.outcome == Some(RequestOutcome::Failed)
                &&& opt_view(f.failure) == Some(binding_error_message(e))
                &&& f.session_id@ == o.session_id@
                &&& f.workspace_path@ == o.workspace_path@
                &&& cmds == closing_reactions(o.channel_id@, o.trigger_ts@, false)
            },
            None => {
                &&& f.stage == RequestStage::AwaitActiveRun
                &&& f.outcome == o.outcome
                &&& opt_view(f.failure) == opt_view(o.failure)
                &&& f.session_id@ == s.id@
                &&& f.workspace_path@ == s.workspace_path@
                &&& cmds == seq![CommandView::CheckActiveRun(s.id@)]
            },
        },
        None => {
            &&& f.stage == RequestStage::AwaitWorkspace
            &&& f.outcome == o.outcome
            &&& opt_view(f.failure) == opt_view(o.failure)
            &&& f.session_id@ == o.session_id@
            &&& f.workspace_path@ == o.workspace_path@
            &&& cmds == match f.environment {
                Some(e) => seq![CommandView::PrepareRepoWorkspace(e.slug@, e.git_ssh_url@, e.default_branch@)],
                None => seq![CommandView::PrepareGeneralWorkspace],
            }
        },
    }
}

/// Once the environment is known, the workflow is chosen: a request that asks for
/// Playwright explicitly is pinned to the Playwright task workflow when the
/// registry has it, and the session step follows; otherwise the selector is asked.
pub open spec fn workflow_step(registry: WorkflowRegistry, o: RequestFlow, f: RequestFlow, cmds: Seq<CommandView>) -> bool {
    &&& if o.policy.explicit_playwright_requested && registry@.contains_key(playwright_task_workflow_id()) {
        &&& wf_view(f.workflow) == Some(registry@[playwright_task_workflow_id()])
        &&& session_step(o, f, cmds)
    } else {
        &&& f.stage == RequestStage::AwaitSelection
        &&& f.outcome == o.outcome
        &&& opt_view(f.failure) == opt_view(o.failure)
        &&& f.reacting == o.reacting
        &&& same_mention(o, f)
        &&& same_reading(o, f)
        &&& f.existing_session == o.existing_session
        &&& f.workflow == o.workflow
        &&& f.session_id@ == o.session_id@
        &&& f.workspace_path@ == o.workspace_path@
        &&& f.setup_script == o.setup_script
        &&& f.task_run_id@ == o.task_run_id@
        &&& cmds == seq![CommandView::SelectWorkflow]
    }
}

impl RequestFlow {
    fn bind_session(&mut self) -> (r: Vec<RequestCommand>)
        ensures
            session_step(*old(self), *final(self), commands_view(r@)),
            final(self).environment == old(self).environment,
            final(self).requested == old(self).requested,
            final(self).workflow == old(self).workflow,
    {
        let mut cmds: Vec<RequestCommand> = Vec::new();
        match &self.existing_session {
            Some(s) => {
                match enforce_environment_binding(s, self.environment.as_ref()) {
                    Err(e) => {
                        self.failure = Some(e.message());
                        push_closing(&mut cmds, &self.channel_id, &self.trigger_ts, false);
                        self.stage = RequestStage::Finished;
                        self.outcome = Some(RequestOutcome::Failed);
                        assert(commands_view(cmds@) =~= closing_reactions(
                            self.channel_id@,
                            self.trigger_ts@,
                            false,
                        ));
                        cmds
                    },
                    Ok(()) => {
                        let id = s.id.clone();
                        let path = s.workspace_path.clone();
                        push_command(&mut cmds, RequestCommand::CheckActiveRun { session_id: id.clone() });
                        self.session_id = id;
                        self.workspace_path = path;
                        self.stage = RequestStage::AwaitActiveRun;
                        assert(commands_view(cmds@) =~= seq![CommandView::CheckActiveRun(self.session_id@)]);
                        cmds
                    },
                }
            },
            None => {
                match &self.environment {
                    Some(e) => {
                        push_command(
                            &mut cmds,
                            RequestCommand::PrepareRepoWorkspace {
                                slug: e.slug.clone(),
                                git_ssh_url: e.git_ssh_url.clone(),
                                default_branch: e.default_branch.clone(),
                            },
                        );
                        assert(commands_view(cmds@) =~= seq![
                            CommandView::PrepareRepoWorkspace(e.slug@, e.git_ssh_url@, e.default_branch@),
                        ]);
                    },
                    None => {
                        push_command(&mut cmds, RequestCommand::PrepareGeneralWorkspace);
                        assert(commands_view(cmds@) =~= seq![CommandView::PrepareGeneralWorkspace]);
                    },
                }
                self.stage = RequestStage::AwaitWorkspace;
                cmds
            },
        }
    }

    fn choose_workflow(&mut self, registry: &WorkflowRegistry) -> (r: Vec<RequestCommand>)
        requires
            registry.wf(),
        ensures
            workflow_step(*registry, *old(self), *final(self), commands_view(r@)),
            final(self).environment == old(self).environment,
            final(self).requested == old(self).requested,
    {
        match pin_playwright_workflow(registry, &self.policy) {
            Some(w) => {
                self.workflow = Some(w);
                self.bind_session()
            },
            None => {
                let mut cmds: Vec<RequestCommand> = Vec::new();
                push_command(&mut cmds, RequestCommand::SelectWorkflow);
                self.stage = RequestStage::AwaitSelection;
                assert(commands_view(cmds@) =~= seq![CommandView::SelectWorkflow]);
                cmds
            },
        }
    }
}

/// The default environment of the workflow that the request matches without an
/// environment, if any.
pub open spec fn default_environment_slug(registry: WorkflowRegistry, request: Seq<char>) -> Option<Seq<char>> {
    match matched_workflow(registry, request, None) {
        Some(w) => w.metadata.default_environment,
        None => None,
    }
}

/// The environment at this position of a list, if any.
pub open spec fn env_at(envs: Seq<Environment>, i: Option<int>) -> Option<Environment> {
    match i {
        Some(k) => Some(envs[k]),
        None => None,
    }
}

impl RequestFlow {
    /// The thread's session was looked up; the environments are listed next, to find
    /// the one the request names.
    pub fn on_session_found(&mut self, session: Option<Session>) -> (r: Vec<RequestCommand>)
        ensures
            old(self).stage != RequestStage::AwaitSession ==> unchanged(*old(self), *final(self)) && r@.len() == 0,
            old(self).stage == RequestStage::AwaitSession ==> {
                &&& final(self).stage == RequestStage::AwaitEnvironments
                &&& final(self).existing_session == session
                &&& final(self).outcome == old(self).outcome
                &&& opt_view(final(self).failure) == opt_view(old(self).failure)
                &&& final(self).reacting == old(self).reacting
                &&& same_mention(*old(self), *final(self))
                &&& same_reading(*old(self), *final(self))
                &&& final(self).requested == old(self).requested
                &&& final(self).environment == old(self).environment
                &&& final(self).workflow == old(self).workflow
                &&& final(self).setup_script == old(self).setup_script
                &&& final(self).session_id@ == old(self).session_id@
                &&& final(self).workspace_path@ == old(self).workspace_path@
                &&& final(self).task_run_id@ == old(self).task_run_id@
                &&& commands_view(r@) == seq![CommandView::ListEnvironments]
            },
    {
        let mut cmds: Vec<RequestCommand> = Vec::new();
        if self.stage != RequestStage::AwaitSession {
            return cmds;
        }
        self.existing_session = session;
        self.stage = RequestStage::AwaitEnvironments;
        push_command(&mut cmds, RequestCommand::ListEnvironments);
        assert(commands_view(cmds@) =~= seq![CommandView::ListEnvironments]);
        cmds
    }

    /// The environments were listed. The request names one of them when exactly one
    /// matches. A thread with a session keeps its binding: a bound session loads its
    /// environment; a general one refuses a named environment, else runs without
    /// one. A new thread uses the named environment, else the default environment
    /// of the workflow the request matches, else none. The workflow is chosen next.
    pub fn on_environments_listed(&mut self, registry: &WorkflowRegistry, environments: Vec<Environment>) -> (r: Vec<
        RequestCommand,
    >)
        requires
            registry.wf(),
            scores_fit(*registry),
        ensures
            old(self).stage != RequestStage::AwaitEnvironments ==> unchanged(*old(self), *final(self)) && r@.len()
                == 0,
            old(self).stage == RequestStage::AwaitEnvironments ==> {
                let o = *old(self);
                let named = env_at(environments@, named_environment(environments@, o.request_text@));
                let cmds = commands_view(r@);
                match o.existing_session {
                    Some(s) => match opt_view(s.environment_id) {
                        Some(id) => {
                            &&& final(self).stage == RequestStage::AwaitBoundEnvironment
                            &&& final(self).requested == named
                            &&& final(self).outcome == o.outcome
                            &&& opt_view(final(self).failure) == opt_view(o.failure)
                            &&& final(self).reacting == o.reacting
                            &&& same_mention(o, *final(self))
                            &&& same_reading(o, *final(self))
                            &&& final(self).existing_session == o.existing_session
                            &&& final(self).environment == o.environment
                            &&& final(self).workflow == o.workflow
                            &&& final(self).setup_script == o.setup_script
                            &&& final(self).session_id@ == o.session_id@
                            &&& final(self).workspace_path@ == o.workspace_path@
                            &&& final(self).task_run_id@ == o.task_run_id@
                            &&& cmds == seq![CommandView::GetEnvironment(id)]
                        },
                        None => if named is Some {
                            &&& final(self).requested == named
                            &&& final(self).stage == RequestStage::Finished
                            &&& final(self).outcome == Some(RequestOutcome::Rejected)
                            &&& opt_view(final(self).failure) == opt_view(o.failure)
                            &&& final(self).reacting == o.reacting
                            &&& same_mention(o, *final(self))
                            &&& same_reading(o, *final(self))
                            &&& final(self).existing_session == o.existing_session
                            &&& final(self).environment == o.environment
                            &&& final(self).workflow == o.workflow
                            &&& cmds == seq![CommandView::PostMessage(o.channel_id@, o.thread_ts@, general_thread_text())]
                                + closing_reactions(o.channel_id@, o.trigger_ts@, false)
                        } else {
                            &&& final(self).requested is None
                            &&& final(self).environment is None
                            &&& workflow_step(*registry, o, *final(self), cmds)
                        },
                    },
                    None => if named is Some {
                        &&& final(self).requested is None
                        &&& final(self).environment == named
                        &&& workflow_step(*registry, o, *final(self), cmds)
                    } else {
                        &&& final(self).requested is None
                        &&& match default_environment_slug(*registry, o.request_text@) {
                            Some(slug) => {
                                &&& final(self).stage == RequestStage::AwaitDefaultEnvironment
                                &&& final(self).outcome == o.outcome
                                &&& opt_view(final(self).failure) == opt_view(o.failure)
                                &&& final(self).reacting == o.reacting
                                &&& same_mention(o, *final(self))
                                &&& same_reading(o, *final(self))
                                &&& final(self).existing_session == o.existing_session
                                &&& final(self).environment == o.environment
                                &&& final(self).workflow == o.workflow
                                &&& final(self).setup_script == o.setup_script
                                &&& final(self).session_id@ == o.session_id@
                                &&& final(self).workspace_path@ == o.workspace_path@
                                &&& final(self).task_run_id@ == o.task_run_id@
                                &&& cmds == seq![CommandView::GetEnvironmentBySlug(slug)]
                            },
                            None => {
                                &&& final(self).environment is None
                                &&& workflow_step(*registry, o, *final(self), cmds)
                            },
                        }
                    },
                }
            },
    {
        let mut cmds: Vec<RequestCommand> = Vec::new();
        if self.stage != RequestStage::AwaitEnvironments {
            return cmds;
        }
        let mut environments = environments;
        let ghost envs = environments@;
        let named = match resolve_from_prompt(&environments, self.request_text.as_str()) {
            Some(i) => Some(environments.remove(i)),
            None => None,
        };
        assert(named == env_at(envs, named_environment(envs, self.request_text@)));
        match &self.existing_session {
            Some(s) => {
                match &s.environment_id {
                    Some(id) => {
                        push_command(&mut cmds, RequestCommand::GetEnvironment { id: id.clone() });
                        self.requested = named;
                        self.stage = RequestStage::AwaitBoundEnvironment;
                        assert(commands_view(cmds@) =~= seq![CommandView::GetEnvironment(id@)]);
                        cmds
                    },
                    None => {
                        if named.is_some() {
                            self.requested = named;
                            push_post(&mut cmds, &self.channel_id, &self.thread_ts, general_thread_message());
                            push_closing(&mut cmds, &self.channel_id, &self.trigger_ts, false);
                            self.stage = RequestStage::Finished;
                            self.outcome = Some(RequestOutcome::Rejected);
                            assert(commands_view(cmds@) =~= seq![
                                CommandView::PostMessage(self.channel_id@, self.thread_ts@, general_thread_text()),
                            ] + closing_reactions(self.channel_id@, self.trigger_ts@, false));
                            cmds
                        } else {
                            self.requested = None;
                            self.environment = None;
                            self.choose_workflow(registry)
                        }
                    },
                }
            },
            None => {
                self.requested = None;
                if named.is_some() {
                    self.environment = named;
                    self.choose_workflow(registry)
                } else {
                    let matched = match_workflow(registry, self.request_text.as_str(), None);
                    let slug = match matched {
                        Some(w) => w.metadata.default_environment,
                        None => None,
                    };
                    match slug {
                        Some(slug) => {
                            push_command(&mut cmds, RequestCommand::GetEnvironmentBySlug { slug });
                            self.stage = RequestStage::AwaitDefaultEnvironment;
                            assert(commands_view(cmds@) =~= seq![
                                CommandView::GetEnvironmentBySlug(
                                    default_environment_slug(*registry, self.request_text@)->Some_0,
                                ),
                            ]);
                            cmds
                        },
                        None => {
                            self.environment = None;
                            self.choose_workflow(registry)
                        },
                    }
                }
            },
        }
    }

    /// The session's bound environment was loaded. When the request names another
    /// environment, it is refused; otherwise the bound environment is used and the
    /// workflow is chosen.
    pub fn on_bound_environment(&mut self, registry: &WorkflowRegistry, bound: Option<Environment>) -> (r: Vec<
        RequestCommand,
    >)
        requires
            registry.wf(),
        ensures
            old(self).stage != RequestStage::AwaitBoundEnvironment ==> unchanged(*old(self), *final(self)) && r@.len()
                == 0,
            old(self).stage == RequestStage::AwaitBoundEnvironment ==> {
                let o = *old(self);
                let cmds = commands_view(r@);
                &&& final(self).requested == o.requested
                &&& if o.requested is Some && bound is Some && o.requested->Some_0.id@ != bound->Some_0.id@ {
                    &&& final(self).stage == RequestStage::Finished
                    &&& final(self).outcome == Some(RequestOutcome::Rejected)
                    &&& opt_view(final(self).failure) == opt_view(o.failure)
                    &&& final(self).reacting == o.reacting
                    &&& same_mention(o, *final(self))
                    &&& same_reading(o, *final(self))
                    &&& same_binding(o, *final(self))
                    &&& cmds == seq![CommandView::PostMessage(o.channel_id@, o.thread_ts@, other_environment_text())]
                        + closing_reactions(o.channel_id@, o.trigger_ts@, false)
                } else {
                    &&& final(self).environment == bound
                    &&& workflow_step(*registry, o, *final(self), cmds)
                }
            },
    {
        let mut cmds: Vec<RequestCommand> = Vec::new();
        if self.stage != RequestStage::AwaitBoundEnvironment {
            return cmds;
        }
        let conflict = match (&self.requested, &bound) {
            (Some(req), Some(b)) => !str_eq(req.id.as_str(), b.id.as_str()),
            _ => false,
        };
        if conflict {
            push_post(&mut cmds, &self.channel_id, &self.thread_ts, other_environment_message());
            push_closing(&mut cmds, &self.channel_id, &self.trigger_ts, false);
            self.stage = RequestStage::Finished;
            self.outcome = Some(RequestOutcome::Rejected);
            assert(commands_view(cmds@) =~= seq![
                CommandView::PostMessage(self.channel_id@, self.thread_ts@, other_environment_text()),
            ] + closing_reactions(self.channel_id@, self.trigger_ts@, false));
            cmds
        } else {
            self.environment = bound;
            self.choose_workflow(registry)
        }
    }

    /// The default environment of the matched workflow was loaded (or not found);
    /// it is used and the workflow is chosen.
    pub fn on_default_environment(&mut self, registry: &WorkflowRegistry, environment: Option<Environment>) -> (r: Vec<
        RequestCommand,
    >)
        requires
            registry.wf(),
        ensures
            old(self).stage != RequestStage::AwaitDefaultEnvironment ==> unchanged(*old(self), *final(self)) && r@.len()
                == 0,
            old(self).stage == RequestStage::AwaitDefaultEnvironment ==> {
                &&& final(self).requested == old(self).requested
                &&& final(self).environment == environment
                &&& workflow_step(*registry, *old(self), *final(self), commands_view(r@))
            },
    {
        if self.stage != RequestStage::AwaitDefaultEnvironment {
            return Vec::new();
        }
        self.environment = environment;
        self.choose_workflow(registry)
    }

    /// The selector answered. Its workflow is used, else the one the request
    /// matches in the environment, else none; then the session step follows.
    pub fn on_workflow_selected(&mut self, registry: &WorkflowRegistry, selected: Option<WorkflowDefinition>) -> (r: Vec<
        RequestCommand,
    >)
        requires
            registry.wf(),
            scores_fit(*registry),
        ensures
            old(self).stage != RequestStage::AwaitSelection ==> unchanged(*old(self), *final(self)) && r@.len() == 0,
            old(self).stage == RequestStage::AwaitSelection ==> {
                let o = *old(self);
                &&& wf_view(final(self).workflow) == (match selected {
                    Some(w) => Some(w@),
                    None => matched_workflow(*registry, o.request_text@, slug_of(o.environment)),
                })
                &&& final(self).environment == o.environment
                &&& final(self).requested == o.requested
                &&& session_step(o, *final(self), commands_view(r@))
            },
    {
        if self.stage != RequestStage::AwaitSelection {
            return Vec::new();
        }
        let workflow = match selected {
            Some(w) => Some(w),
            None => match_workflow(registry, self.request_text.as_str(), self.environment.as_ref()),
        };
        self.workflow = workflow;
        self.bind_session()
    }
}

fn general_thread_message() -> (r: String)
    ensures
        r@ == general_thread_text(),
{
    "This thread started as a general workspace and cannot be rebound to an environment.".to_string()
}

fn other_environment_message() -> (r: String)
    ensures
        r@ == other_environment_text(),
{
    "This thread is already bound to a different environment. Start a new thread to switch environments.".to_string()
}

/// The id of an optional workflow.
pub open spec fn wf_id(w: Option<WorkflowDefinition>) -> Option<Seq<char>> {
    match w {
        Some(x) => Some(x.metadata.id@),
        None => None,
    }
}

/// The name of an optional workflow.
pub open spec fn wf_name(w: Option<WorkflowDefinition>) -> Option<Seq<char>> {
    match w {
        Some(x) => Some(x.metadata.name@),
        None => None,
    }
}

/// The name of an optional environment.
pub open spec fn env_name(e: Option<Environment>) -> Option<Seq<char>> {
    match e {
        Some(x) => Some(x.name@),
        None => None,
    }
}

/// The environment fields a prompt shows.
pub open spec fn env_fields_of(e: Option<Environment>) -> Option<(Seq<char>, Seq<char>, Seq<char>)> {
    match e {
        Some(x) => Some((x.slug@, x.git_ssh_url@, x.default_branch@)),
        None => None,
    }
}

/// Whether an optional workflow is the Playwright task workflow.
pub open spec fn is_playwright_wf(w: Option<WorkflowDefinition>) -> bool {
    match w {
        Some(x) => x.metadata.id@ == playwright_task_workflow_id(),
        None => false,
    }
}

/// The prompt a request's task runs with: the rendered prompt, with the browser
/// directive in front for a browser task.
pub open spec fn task_prompt(f: RequestFlow) -> Seq<char> {
    directed_prompt(
        rendered_prompt(wf_view(f.workflow), env_fields_of(f.environment), f.thread@, f.workspace_path@),
        f.policy,
    )
}

/// What follows once a task run may start: a Playwright task that asks for the CLI
/// waits for the preflight; any other runs, with the browser time limit for
/// Playwright tasks.
pub open spec fn run_commands(config: Config, f: RequestFlow) -> (RequestStage, Seq<CommandView>) {
    if is_playwright_wf(f.workflow) && f.policy.explicit_cli_playwright_requested {
        (RequestStage::AwaitPreflight, seq![CommandView::Preflight])
    } else {
        (
            RequestStage::AwaitRun,
            seq![
                CommandView::RunTask(
                    f.task_run_id@,
                    f.workspace_path@,
                    task_prompt(f),
                    if is_playwright_wf(f.workflow) {
                        Some(config.codex.browser_task_timeout_seconds)
                    } else {
                        None
                    },
                ),
            ],
        )
    }
}

/// The commands that close a task run before it ran: the run gets its status and
/// summary, the session goes idle, and the reply is posted.
pub open spec fn stop_commands(
    f: RequestFlow,
    status: Seq<char>,
    exit_code: Option<i64>,
    summary: Seq<char>,
    reply: Seq<char>,
) -> Seq<CommandView> {
    seq![
        CommandView::UpdateTaskRun(f.task_run_id@, status, exit_code, Some(summary)),
        CommandView::UpdateSessionStatus(f.session_id@, "idle"@, wf_id(f.workflow)),
        CommandView::Reply(f.session_id@, Some(f.task_run_id@), f.channel_id@, f.thread_ts@, reply),
    ] + closing_reactions(f.channel_id@, f.trigger_ts@, false)
}

/// Everything but the stage stays.
pub open spec fn moves_on(a: RequestFlow, b: RequestFlow) -> bool {
    &&& b.outcome == a.outcome
    &&& opt_view(b.failure) == opt_view(a.failure)
    &&& b.reacting == a.reacting
    &&& same_mention(a, b)
    &&& same_reading(a, b)
    &&& same_binding(a, b)
}

fn workflow_id_of(w: &Option<WorkflowDefinition>) -> (r: Option<String>)
    ensures
        opt_view(r) == wf_id(*w),
{
    match w {
        Some(x) => Some(x.metadata.id.clone()),
        None => None,
    }
}

fn push_event_lines(events: &mut Vec<SyncLog>, stream: LogStream, text: &str)
    ensures
        logs_view(final(events)@) == logs_view(old(events)@) + lines(text@).map_values(
            |l: Seq<char>| (stream, l + "\n"@),
        ),
{
    let tv = chars_of(text);
    let ls = split_lines(&tv);
    let ghost lv = vecs_view(ls@);
    let ghost start = logs_view(events@);
    let mut i: usize = 0;
    assert(lv.take(0).map_values(|l: Seq<char>| (stream, l + "\n"@)) =~= seq![]);
    assert(start =~= start + lv.take(0).map_values(|l: Seq<char>| (stream, l + "\n"@)));
    while i < ls.len()
        invariant
            i <= ls.len(),
            lv == vecs_view(ls@),
            lv == lines(text@),
            logs_view(events@) == start + lv.take(i as int).map_values(|l: Seq<char>| (stream, l + "\n"@)),
        decreases ls.len() - i,
    {
        let mut line = ls[i].clone();
        line.push('\n');
        let chunk = string_of(&line);
        proof {
            reveal_strlit("\n");
            assert(lv[i as int] == ls@[i as int]@);
            assert(chunk@ =~= lv[i as int] + "\n"@);
        }
        let ghost before = logs_view(events@);
        events.push(SyncLog { stream, chunk });
        proof {
            assert(logs_view(events@) =~= before.push((stream, lv[i as int] + "\n"@)));
            assert(lv.take(i + 1) =~= lv.take(i as int).push(lv[i as int]));
            assert(lv.take(i + 1).map_values(|l: Seq<char>| (stream, l + "\n"@)) =~= lv.take(i as int).map_values(
                |l: Seq<char>| (stream, l + "\n"@),
            ).push((stream, lv[i as int] + "\n"@)));
        }
        i = i + 1;
    }
    assert(lv.take(ls.len() as int) =~= lv);
}

/// The terminal events stored for a setup script run.
pub fn hook_events(result: &HookRunResult) -> (r: Vec<SyncLog>)
    ensures
        logs_view(r@) == hook_terminal_events(*result),
{
    let mut events: Vec<SyncLog> = Vec::new();
    events.push(
        SyncLog { stream: LogStream::Stdout, chunk: "[workspace setup] Running workspace setup script\n".to_string() },
    );
    let ghost header = logs_view(events@);
    assert(header =~= seq![(LogStream::Stdout, "[workspace setup] Running workspace setup script\n"@)]);
    push_event_lines(&mut events, LogStream::Stdout, result.stdout.as_str());
    push_event_lines(&mut events, LogStream::Stderr, result.stderr.as_str());
    let ghost body = logs_view(events@);
    let last = if result.timed_out {
        SyncLog { stream: LogStream::Stderr, chunk: "[workspace setup] script timed out\n".to_string() }
    } else if result.succeeded() {
        SyncLog { stream: LogStream::Stdout, chunk: "[workspace setup] completed successfully\n".to_string() }
    } else {
        SyncLog { stream: LogStream::Stdout, chunk: "[workspace setup] failed\n".to_string() }
    };
    let ghost lastv = (last.stream, last.chunk@);
    events.push(last);
    assert(logs_view(events@) =~= body.push(lastv));
    assert(logs_view(events@) =~= hook_terminal_events(*result));
    events
}

/// The stored raw form of an inbound mention.
fn raw_inbound_json(text: &str, user_id: &str, channel_id: &str, thread_ts: &str) -> (r: String)
    ensures
        r@ == raw_inbound(text@, user_id@, channel_id@, thread_ts@),
{
    let c = to_json_string_literal(channel_id);
    let t = to_json_string_literal(text);
    let h = to_json_string_literal(thread_ts);
    let u = to_json_string_literal(user_id);
    let r = concat(
        &[
            "{\"channel_id\":",
            c.as_str(),
            ",\"text\":",
            t.as_str(),
            ",\"thread_ts\":",
            h.as_str(),
            ",\"user_id\":",
            u.as_str(),
            "}",
        ],
    );
    proof {
        reveal_with_fuel(concat_all, 10);
    }
    r
}

impl RequestFlow {
    fn start_run(&mut self, config: &Config) -> (r: Vec<RequestCommand>)
        ensures
            moves_on(*old(self), *final(self)),
            (final(self).stage, commands_view(r@)) == run_commands(*config, *old(self)),
    {
        let mut cmds: Vec<RequestCommand> = Vec::new();
        let playwright = is_playwright_task_workflow(self.workflow.as_ref());
        if playwright && self.policy.explicit_cli_playwright_requested {
            push_command(&mut cmds, RequestCommand::Preflight);
            self.stage = RequestStage::AwaitPreflight;
            assert(commands_view(cmds@) =~= seq![CommandView::Preflight]);
            return cmds;
        }
        let prompt = render_prompt(
            self.workflow.as_ref(),
            self.environment.as_ref(),
            &self.thread,
            self.workspace_path.as_str(),
        );
        let prompt = apply_browser_execution_directive(prompt, &self.policy);
        let timeout_seconds = if playwright {
            Some(config.codex.browser_task_timeout_seconds)
        } else {
            None
        };
        let input = RunnerInput {
            task_run_id: self.task_run_id.clone(),
            workspace_path: self.workspace_path.clone(),
            prompt,
            timeout_seconds,
        };
        push_command(&mut cmds, RequestCommand::RunTask(input));
        self.stage = RequestStage::AwaitRun;
        assert(commands_view(cmds@) =~= run_commands(*config, *old(self)).1);
        cmds
    }

    fn push_stop(
        &self,
        cmds: &mut Vec<RequestCommand>,
        status: &str,
        exit_code: Option<i64>,
        summary: String,
        reply: String,
    )
        ensures
            commands_view(final(cmds)@) == commands_view(old(cmds)@) + stop_commands(
                *self,
                status@,
                exit_code,
                summary@,
                reply@,
            ),
    {
        let ghost before = commands_view(cmds@);
        let ghost sv = summary@;
        let ghost rv = reply@;
        push_command(
            cmds,
            RequestCommand::UpdateTaskRun {
                task_run_id: self.task_run_id.clone(),
                status: status.to_string(),
                exit_code,
                error_summary: Some(summary),
            },
        );
        push_command(
            cmds,
            RequestCommand::UpdateSessionStatus {
                session_id: self.session_id.clone(),
                status: "idle".to_string(),
                workflow_id: workflow_id_of(&self.workflow),
            },
        );
        push_command(
            cmds,
            RequestCommand::Reply {
                session_id: self.session_id.clone(),
                task_run_id: Some(self.task_run_id.clone()),
                channel_id: self.channel_id.clone(),
                thread_ts: self.thread_ts.clone(),
                text: reply,
            },
        );
        push_closing(cmds, &self.channel_id, &self.trigger_ts, false);
        assert(commands_view(cmds@) =~= before + stop_commands(*self, status@, exit_code, sv, rv));
    }

    /// A workspace was prepared for a new session. A newly created workspace of an
    /// environment gets that environment's workspace setup script, if it has one.
    /// The session is created next, idle, with its environment and workflow.
    pub fn on_workspace_prepared(&mut self, prepared: PreparedWorkspace) -> (r: Vec<RequestCommand>)
        ensures
            old(self).stage != RequestStage::AwaitWorkspace ==> unchanged(*old(self), *final(self)) && r@.len() == 0,
            old(self).stage == RequestStage::AwaitWorkspace ==> {
                let o = *old(self);
                &&& final(self).stage == RequestStage::AwaitSessionCreated
                &&& opt_view(final(self).setup_script) == (if prepared.created {
                    match o.environment {
                        Some(e) => normalized_script(opt_view(e.workspace_setup_script)),
                        None => None,
                    }
                } else {
                    None
                })
                &&& final(self).outcome == o.outcome
                &&& opt_view(final(self).failure) == opt_view(o.failure)
                &&& final(self).reacting == o.reacting
                &&& same_mention(o, *final(self))
                &&& same_reading(o, *final(self))
                &&& final(self).existing_session == o.existing_session
                &&& final(self).requested == o.requested
                &&& final(self).environment == o.environment
                &&& final(self).workflow == o.workflow
                &&& final(self).session_id@ == o.session_id@
                &&& final(self).workspace_path@ == o.workspace_path@
                &&& final(self).task_run_id@ == o.task_run_id@
                &&& commands_view(r@) == seq![
                    CommandView::CreateSession(
                        o.team_id@,
                        o.channel_id@,
                        o.thread_ts@,
                        prepared.workspace_id@,
                        prepared.workspace_path@,
                        env_id_of(o.environment),
                        wf_id(o.workflow),
                    ),
                ]
            },
    {
        let mut cmds: Vec<RequestCommand> = Vec::new();
        if self.stage != RequestStage::AwaitWorkspace {
            return cmds;
        }
        if prepared.created {
            self.setup_script = match &self.environment {
                Some(e) => match &e.workspace_setup_script {
                    Some(script) => normalize_script(Some(script.as_str())),
                    None => None,
                },
                None => None,
            };
        } else {
            self.setup_script = None;
        }
        let environment_id = match &self.environment {
            Some(e) => Some(e.id.clone()),
            None => None,
        };
        push_command(
            &mut cmds,
            RequestCommand::CreateSession {
                team_id: self.team_id.clone(),
                channel_id: self.channel_id.clone(),
                thread_ts: self.thread_ts.clone(),
                workspace_id: prepared.workspace_id,
                workspace_path: prepared.workspace_path,
                environment_id,
                workflow_id: workflow_id_of(&self.workflow),
            },
        );
        self.stage = RequestStage::AwaitSessionCreated;
        assert(commands_view(cmds@) =~= seq![
            CommandView::CreateSession(
                self.team_id@,
                self.channel_id@,
                self.thread_ts@,
                prepared.workspace_id@,
                prepared.workspace_path@,
                env_id_of(self.environment),
                wf_id(self.workflow),
            ),
        ]);
        cmds
    }

    /// The session was created; it is checked for an active run.
    pub fn on_session_created(&mut self, session: Session) -> (r: Vec<RequestCommand>)
        ensures
            old(self).stage != RequestStage::AwaitSessionCreated ==> unchanged(*old(self), *final(self)) && r@.len()
                == 0,
            old(self).stage == RequestStage::AwaitSessionCreated ==> {
                let o = *old(self);
                &&& final(self).stage == RequestStage::AwaitActiveRun
                &&& final(self).session_id@ == session.id@
                &&& final(self).workspace_path@ == session.workspace_path@
                &&& final(self).outcome == o.outcome
                &&& opt_view(final(self).failure) == opt_view(o.failure)
                &&& final(self).reacting == o.reacting
                &&& same_mention(o, *final(self))
                &&& same_reading(o, *final(self))
                &&& final(self).existing_session == o.existing_session
                &&& final(self).requested == o.requested
                &&& final(self).environment == o.environment
                &&& final(self).workflow == o.workflow
                &&& final(self).setup_script == o.setup_script
                &&& final(self).task_run_id@ == o.task_run_id@
                &&& commands_view(r@) == seq![CommandView::CheckActiveRun(session.id@)]
            },
    {
        let mut cmds: Vec<RequestCommand> = Vec::new();
        if self.stage != RequestStage::AwaitSessionCreated {
            return cmds;
        }
        push_command(&mut cmds, RequestCommand::CheckActiveRun { session_id: session.id.clone() });
        self.session_id = session.id;
        self.workspace_path = session.workspace_path;
        self.stage = RequestStage::AwaitActiveRun;
        assert(commands_view(cmds@) =~= seq![CommandView::CheckActiveRun(self.session_id@)]);
        cmds
    }

    /// The session was checked for an active run. With one, the thread is told to
    /// wait and the request closes as rejected; without, the session starts running
    /// and a task run is inserted.
    pub fn on_active_run_checked(&mut self, active: bool) -> (r: Vec<RequestCommand>)
        ensures
            old(self).stage != RequestStage::AwaitActiveRun ==> unchanged(*old(self), *final(self)) && r@.len() == 0,
            old(self).stage == RequestStage::AwaitActiveRun && active ==> {
                let o = *old(self);
                &&& ends_as(o, *final(self), RequestOutcome::Rejected)
                &&& commands_view(r@) == seq![
                    CommandView::Reply(o.session_id@, None, o.channel_id@, o.thread_ts@, active_run_text()),
                ] + closing_reactions(o.channel_id@, o.trigger_ts@, false)
            },
            old(self).stage == RequestStage::AwaitActiveRun && !active ==> {
                let o = *old(self);
                &&& final(self).stage == RequestStage::AwaitTaskRun
                &&& moves_on(o, *final(self))
                &&& commands_view(r@) == seq![
                    CommandView::UpdateSessionStatus(o.session_id@, "running"@, wf_id(o.workflow)),
                    CommandView::InsertTaskRun(o.session_id@, o.trigger_ts@, wf_id(o.workflow), wf_name(o.workflow), "running"@),
                ]
            },
    {
        let mut cmds: Vec<RequestCommand> = Vec::new();
        if self.stage != RequestStage::AwaitActiveRun {
            return cmds;
        }
        if active {
            push_command(
                &mut cmds,
                RequestCommand::Reply {
                    session_id: self.session_id.clone(),
                    task_run_id: None,
                    channel_id: self.channel_id.clone(),
                    thread_ts: self.thread_ts.clone(),
                    text: "This thread already has an active task run. Wait for it to finish before sending another request.".to_string(),
                },
            );
            push_closing(&mut cmds, &self.channel_id, &self.trigger_ts, false);
            self.stage = RequestStage::Finished;
            self.outcome = Some(RequestOutcome::Rejected);
            assert(commands_view(cmds@) =~= seq![
                CommandView::Reply(self.session_id@, None, self.channel_id@, self.thread_ts@, active_run_text()),
            ] + closing_reactions(self.channel_id@, self.trigger_ts@, false));
            return cmds;
        }
        push_command(
            &mut cmds,
            RequestCommand::UpdateSessionStatus {
                session_id: self.session_id.clone(),
                status: "running".to_string(),
                workflow_id: workflow_id_of(&self.workflow),
            },
        );
        let workflow_name = match &self.workflow {
            Some(w) => Some(w.metadata.name.clone()),
            None => None,
        };
        push_command(
            &mut cmds,
            RequestCommand::InsertTaskRun {
                session_id: self.session_id.clone(),
                trigger_message_ts: self.trigger_ts.clone(),
                workflow_id: workflow_id_of(&self.workflow),
                workflow_name,
                status: "running".to_string(),
            },
        );
        self.stage = RequestStage::AwaitTaskRun;
        assert(commands_view(cmds@) =~= seq![
            CommandView::UpdateSessionStatus(self.session_id@, "running"@, wf_id(self.workflow)),
            CommandView::InsertTaskRun(self.session_id@, self.trigger_ts@, wf_id(self.workflow), wf_name(self.workflow), "running"@),
        ]);
        cmds
    }
}

/// The commands once a task run exists: its inbound message is stored, a thread
/// in an environment is told that the task started, and then the setup script runs
/// if there is one, else the run starts.
pub open spec fn task_run_commands(config: Config, f: RequestFlow) -> Seq<CommandView> {
    seq![
        CommandView::InsertTaskMessage(
            f.session_id@,
            f.task_run_id@,
            f.user_id@,
            raw_inbound(f.text@, f.user_id@, f.channel_id@, f.thread_ts@),
            resolved_payload(f.request_text@),
        ),
    ] + (match f.environment {
        Some(e) => seq![
            CommandView::Reply(
                f.session_id@,
                Some(f.task_run_id@),
                f.channel_id@,
                f.thread_ts@,
                kickoff_message(config.server.portal_base_url@, f.session_id@, Some(e.name@), wf_name(f.workflow)),
            ),
        ],
        None => seq![],
    })
}

impl RequestFlow {
    /// The task run was inserted; see `task_run_commands`.
    pub fn on_task_run_inserted(&mut self, config: &Config, task_run_id: String) -> (r: Vec<RequestCommand>)
        ensures
            old(self).stage != RequestStage::AwaitTaskRun ==> unchanged(*old(self), *final(self)) && r@.len() == 0,
            old(self).stage == RequestStage::AwaitTaskRun ==> {
                let o = *old(self);
                let f = *final(self);
                &&& f.task_run_id@ == task_run_id@
                &&& f.outcome == o.outcome
                &&& opt_view(f.failure) == opt_view(o.failure)
                &&& f.reacting == o.reacting
                &&& same_mention(o, f)
                &&& same_reading(o, f)
                &&& f.existing_session == o.existing_session
                &&& f.requested == o.requested
                &&& f.environment == o.environment
                &&& f.workflow == o.workflow
                &&& f.session_id@ == o.session_id@
                &&& f.workspace_path@ == o.workspace_path@
                &&& f.setup_script == o.setup_script
                &&& match opt_view(o.setup_script) {
                    Some(script) => {
                        &&& f.stage == RequestStage::AwaitHook
                        &&& commands_view(r@) == task_run_commands(*config, f) + seq![
                            CommandView::RunHook(o.workspace_path@, script),
                        ]
                    },
                    None => {
                        &&& f.stage == run_commands(*config, f).0
                        &&& commands_view(r@) == task_run_commands(*config, f) + run_commands(*config, f).1
                    },
                }
            },
    {
        let mut cmds: Vec<RequestCommand> = Vec::new();
        if self.stage != RequestStage::AwaitTaskRun {
            return cmds;
        }
        self.task_run_id = task_run_id;
        let raw = raw_inbound_json(
            self.text.as_str(),
            self.user_id.as_str(),
            self.channel_id.as_str(),
            self.thread_ts.as_str(),
        );
        let resolved = resolved_payload_json(self.request_text.as_str());
        push_command(
            &mut cmds,
            RequestCommand::InsertTaskMessage {
                session_id: self.session_id.clone(),
                task_run_id: self.task_run_id.clone(),
                user_id: self.user_id.clone(),
                raw_payload: raw,
                resolved_payload: resolved,
            },
        );
        if self.environment.is_some() {
            let kickoff = kickoff_text(
                config.server.portal_base_url.as_str(),
                self.session_id.as_str(),
                self.environment.as_ref(),
                self.workflow.as_ref(),
            );
            push_command(
                &mut cmds,
                RequestCommand::Reply {
                    session_id: self.session_id.clone(),
                    task_run_id: Some(self.task_run_id.clone()),
                    channel_id: self.channel_id.clone(),
                    thread_ts: self.thread_ts.clone(),
                    text: kickoff,
                },
            );
        }
        let ghost head = commands_view(cmds@);
        assert(head =~= task_run_commands(*config, *self));
        match &self.setup_script {
            Some(script) => {
                push_command(
                    &mut cmds,
                    RequestCommand::RunHook { workspace_path: self.workspace_path.clone(), script: script.clone() },
                );
                self.stage = RequestStage::AwaitHook;
                assert(commands_view(cmds@) =~= head + seq![CommandView::RunHook(self.workspace_path@, script@)]);
                cmds
            },
            None => {
                let mut rest = self.start_run(config);
                let ghost tail = commands_view(rest@);
                cmds.append(&mut rest);
                assert(commands_view(cmds@) =~= head + tail);
                cmds
            },
        }
    }

    /// The setup script finished. Its output is stored as terminal events. When it
    /// failed, the run is marked failed with the script's summary, the session goes
    /// idle, the thread is told, and the request closes as rejected; otherwise the
    /// run starts.
    pub fn on_hook_finished(&mut self, config: &Config, result: HookRunResult) -> (r: Vec<RequestCommand>)
        ensures
            old(self).stage != RequestStage::AwaitHook ==> unchanged(*old(self), *final(self)) && r@.len() == 0,
            old(self).stage == RequestStage::AwaitHook ==> {
                let o = *old(self);
                let events = seq![CommandView::InsertTerminalEvents(o.task_run_id@, hook_terminal_events(result))];
                if !result.timed_out && result.exit_code == Some(0i64) {
                    &&& moves_on(o, *final(self))
                    &&& final(self).stage == run_commands(*config, o).0
                    &&& commands_view(r@) == events + run_commands(*config, o).1
                } else {
                    let summary = task_hook_summary(result.stderr@, result.stdout@);
                    &&& ends_as(o, *final(self), RequestOutcome::Rejected)
                    &&& commands_view(r@) == events + stop_commands(
                        o,
                        "failed"@,
                        result.exit_code,
                        summary,
                        hook_failed_text(summary),
                    )
                }
            },
    {
        let mut cmds: Vec<RequestCommand> = Vec::new();
        if self.stage != RequestStage::AwaitHook {
            return cmds;
        }
        push_command(
            &mut cmds,
            RequestCommand::InsertTerminalEvents { task_run_id: self.task_run_id.clone(), events: hook_events(&result) },
        );
        let ghost head = commands_view(cmds@);
        if result.succeeded() {
            let mut rest = self.start_run(config);
            let ghost tail = commands_view(rest@);
            cmds.append(&mut rest);
            assert(commands_view(cmds@) =~= head + tail);
            cmds
        } else {
            let summary = summarize_hook_failure_for_task(result.stderr.as_str(), result.stdout.as_str());
            let reply = concat(&["Task failed before execution. ", summary.as_str()]);
            proof {
                reveal_with_fuel(concat_all, 3);
            }
            assert(reply@ == hook_failed_text(summary@));
            self.push_stop(&mut cmds, "failed", result.exit_code, summary, reply);
            self.stage = RequestStage::Finished;
            self.outcome = Some(RequestOutcome::Rejected);
            cmds
        }
    }

    /// The Playwright CLI preflight finished. When it failed, the run is marked
    /// blocked with the preflight's summary, the session goes idle, the thread is
    /// told that the CLI is unavailable, and the request closes as rejected;
    /// otherwise the run starts.
    pub fn on_preflight_finished(&mut self, config: &Config, result: Result<(), CliPreflightError>) -> (r: Vec<
        RequestCommand,
    >)
        ensures
            old(self).stage != RequestStage::AwaitPreflight ==> unchanged(*old(self), *final(self)) && r@.len() == 0,
            old(self).stage == RequestStage::AwaitPreflight ==> {
                let o = *old(self);
                match result {
                    Ok(()) => {
                        &&& moves_on(o, *final(self))
                        &&& final(self).stage == RequestStage::AwaitRun
                        &&& commands_view(r@) == seq![
                            CommandView::RunTask(
                                o.task_run_id@,
                                o.workspace_path@,
                                task_prompt(o),
                                if is_playwright_wf(o.workflow) {
                                    Some(config.codex.browser_task_timeout_seconds)
                                } else {
                                    None
                                },
                            ),
                        ]
                    },
                    Err(e) => {
                        &&& ends_as(o, *final(self), RequestOutcome::Rejected)
                        &&& commands_view(r@) == stop_commands(
                            o,
                            "blocked"@,
                            None,
                            preflight_summary(e),
                            playwright_cli_blocked_message(),
                        )
                    },
                }
            },
    {
        let mut cmds: Vec<RequestCommand> = Vec::new();
        if self.stage != RequestStage::AwaitPreflight {
            return cmds;
        }
        match result {
            Err(e) => {
                self.push_stop(&mut cmds, "blocked", None, e.summary(), playwright_cli_blocked_text());
                self.stage = RequestStage::Finished;
                self.outcome = Some(RequestOutcome::Rejected);
                cmds
            },
            Ok(()) => {
                let playwright = is_playwright_task_workflow(self.workflow.as_ref());
                let prompt = render_prompt(
                    self.workflow.as_ref(),
                    self.environment.as_ref(),
                    &self.thread,
                    self.workspace_path.as_str(),
                );
                let prompt = apply_browser_execution_directive(prompt, &self.policy);
                let timeout_seconds = if playwright {
                    Some(config.codex.browser_task_timeout_seconds)
                } else {
                    None
                };
                let input = RunnerInput {
                    task_run_id: self.task_run_id.clone(),
                    workspace_path: self.workspace_path.clone(),
                    prompt,
                    timeout_seconds,
                };
                push_command(&mut cmds, RequestCommand::RunTask(input));
                self.stage = RequestStage::AwaitRun;
                assert(commands_view(cmds@) =~= seq![
                    CommandView::RunTask(
                        self.task_run_id@,
                        self.workspace_path@,
                        task_prompt(*self),
                        if is_playwright_wf(self.workflow) {
                            Some(config.codex.browser_task_timeout_seconds)
                        } else {
                            None
                        },
                    ),
                ]);
                cmds
            },
        }
    }

    /// The run finished: it gets its status, exit code and error summary, the
    /// session goes idle, the reply is posted, and the request closes as completed.
    pub fn on_run_finished(&mut self, output: RunnerOutput) -> (r: Vec<RequestCommand>)
        ensures
            old(self).stage != RequestStage::AwaitRun ==> unchanged(*old(self), *final(self)) && r@.len() == 0,
            old(self).stage == RequestStage::AwaitRun ==> {
                let o = *old(self);
                &&& ends_as(o, *final(self), RequestOutcome::Completed)
                &&& commands_view(r@) == seq![
                    CommandView::UpdateTaskRun(
                        o.task_run_id@,
                        output.status@,
                        output.exit_code,
                        error_summary(output.status@, output.stderr@),
                    ),
                    CommandView::UpdateSessionStatus(o.session_id@, "idle"@, wf_id(o.workflow)),
                    CommandView::Reply(
                        o.session_id@,
                        Some(o.task_run_id@),
                        o.channel_id@,
                        o.thread_ts@,
                        reply_text(output.status@, output.stdout@, output.stderr@),
                    ),
                ] + closing_reactions(o.channel_id@, o.trigger_ts@, true)
            },
    {
        let mut cmds: Vec<RequestCommand> = Vec::new();
        if self.stage != RequestStage::AwaitRun {
            return cmds;
        }
        let reply = build_reply_text(&output);
        let summary = summarize_error_for_storage(&output);
        push_command(
            &mut cmds,
            RequestCommand::UpdateTaskRun {
                task_run_id: self.task_run_id.clone(),
                status: output.status.clone(),
                exit_code: output.exit_code,
                error_summary: summary,
            },
        );
        push_command(
            &mut cmds,
            RequestCommand::UpdateSessionStatus {
                session_id: self.session_id.clone(),
                status: "idle".to_string(),
                workflow_id: workflow_id_of(&self.workflow),
            },
        );
        push_command(
            &mut cmds,
            RequestCommand::Reply {
                session_id: self.session_id.clone(),
                task_run_id: Some(self.task_run_id.clone()),
                channel_id: self.channel_id.clone(),
                thread_ts: self.thread_ts.clone(),
                text: reply,
            },
        );
        push_closing(&mut cmds, &self.channel_id, &self.trigger_ts, true);
        self.stage = RequestStage::Finished;
        self.outcome = Some(RequestOutcome::Completed);
        assert(commands_view(cmds@) =~= seq![
            CommandView::UpdateTaskRun(
                self.task_run_id@,
                output.status@,
                output.exit_code,
                error_summary(output.status@, output.stderr@),
            ),
            CommandView::UpdateSessionStatus(self.session_id@, "idle"@, wf_id(self.workflow)),
            CommandView::Reply(
                self.session_id@,
                Some(self.task_run_id@),
                self.channel_id@,
                self.thread_ts@,
                reply_text(output.status@, output.stdout@, output.stderr@),
            ),
        ] + closing_reactions(self.channel_id@, self.trigger_ts@, true));
        cmds
    }

    /// A command failed with this message. While the environment is being resolved,
    /// the message is posted to the thread and the request closes as rejected.
    /// Otherwise the request fails with the message, and the closing reactions are
    /// owed when the "eyes" were asked for. A request that already failed stays as
    /// it is.
    pub fn on_failed(&mut self, message: String) -> (r: Vec<RequestCommand>)
        ensures
            ({
                let o = *old(self);
                let resolving = o.stage == RequestStage::AwaitEnvironments || o.stage
                    == RequestStage::AwaitBoundEnvironment || o.stage == RequestStage::AwaitDefaultEnvironment;
                if o.outcome == Some(RequestOutcome::Failed) {
                    unchanged(o, *final(self)) && r@.len() == 0
                } else if resolving {
                    &&& ends_as(o, *final(self), RequestOutcome::Rejected)
                    &&& commands_view(r@) == seq![CommandView::PostMessage(o.channel_id@, o.thread_ts@, message@)]
                        + closing_reactions(o.channel_id@, o.trigger_ts@, false)
                } else {
                    &&& final(self).stage == RequestStage::Finished
                    &&& final(self).outcome == Some(RequestOutcome::Failed)
                    &&& opt_view(final(self).failure) == Some(message@)
                    &&& final(self).reacting == o.reacting
                    &&& same_mention(o, *final(self))
                    &&& same_reading(o, *final(self))
                    &&& same_binding(o, *final(self))
                    &&& commands_view(r@) == (if o.reacting {
                        closing_reactions(o.channel_id@, o.trigger_ts@, false)
                    } else {
                        seq![]
                    })
                }
            }),
    {
        let mut cmds: Vec<RequestCommand> = Vec::new();
        if self.outcome == Some(RequestOutcome::Failed) {
            return cmds;
        }
        let resolving = self.stage == RequestStage::AwaitEnvironments || self.stage
            == RequestStage::AwaitBoundEnvironment || self.stage == RequestStage::AwaitDefaultEnvironment;
        if resolving {
            let ghost mv = message@;
            push_post(&mut cmds, &self.channel_id, &self.thread_ts, message);
            push_closing(&mut cmds, &self.channel_id, &self.trigger_ts, false);
            self.stage = RequestStage::Finished;
            self.outcome = Some(RequestOutcome::Rejected);
            assert(commands_view(cmds@) =~= seq![CommandView::PostMessage(self.channel_id@, self.thread_ts@, mv)]
                + closing_reactions(self.channel_id@, self.trigger_ts@, false));
            return cmds;
        }
        self.failure = Some(message);
        self.stage = RequestStage::Finished;
        self.outcome = Some(RequestOutcome::Failed);
        if self.reacting {
            push_closing(&mut cmds, &self.channel_id, &self.trigger_ts, false);
            assert(commands_view(cmds@) =~= closing_reactions(self.channel_id@, self.trigger_ts@, false));
        } else {
            assert(commands_view(cmds@) =~= seq![]);
        }
        cmds
    }
}

} // verus!
