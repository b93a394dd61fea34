//! The decisions of request handling: how a request is classified, which workflow
//! is pinned, how prompts and replies are worded, and which environment a thread is
//! bound to.
use vstd::prelude::*;
use crate::config::Config;
use crate::db::models::{Environment, Session};
use crate::runner::RunnerOutput;
use crate::text::{
    all_ws, append_slice, append_str, chars_of, collapse_whitespace, collapse_ws, contains,
    is_blank, lowercase, str_contains, str_eq, str_is_blank, string_of, take_chars, take_prefix,
    to_lowercase, trim, trim_string, trim_vec,
};
use crate::workflows::loader::{WorkflowDefinition, WorkflowRegistry, WorkflowView};

verus! {

/// The id of the workflow that browser-automation requests are pinned to.
pub open spec fn playwright_task_workflow_id() -> Seq<char> {
    "playwright-task"@
}

/// The reply when the Playwright CLI cannot be used.
pub open spec fn playwright_cli_blocked_message() -> Seq<char> {
    "Browser CLI prerequisites/network are unavailable right now; task was blocked before execution."@
}

/// The reply when the Playwright CLI cannot be used.
pub fn playwright_cli_blocked_text() -> (r: String)
    ensures
        r@ == playwright_cli_blocked_message(),
{
    "Browser CLI prerequisites/network are unavailable right now; task was blocked before execution.".to_owned()
}

/// How a request is to be executed.
#[derive(Debug, Clone, Copy)]
pub struct RequestExecutionPolicy {
    pub is_browser_task: bool,
    pub explicit_playwright_requested: bool,
    pub explicit_cli_playwright_requested: bool,
}

/// A request is a browser task when its lower-cased text mentions playwright, a
/// browser, a UI test, a screenshot, opening a URL or navigating; it asks for
/// Playwright explicitly when it says `playwright`, and for the Playwright CLI when
/// it says `playwright cli` or `cli skill`.
pub open spec fn execution_policy(request_text: Seq<char>) -> RequestExecutionPolicy {
    let n = lowercase(request_text);
    RequestExecutionPolicy {
        is_browser_task: contains(n, "playwright"@) || contains(n, "browser"@) || contains(n, "ui test"@)
            || contains(n, "screenshot"@) || contains(n, "open url"@) || contains(n, "navigate"@),
        explicit_playwright_requested: contains(n, "playwright"@),
        explicit_cli_playwright_requested: contains(n, "playwright cli"@) || contains(n, "cli skill"@),
    }
}

/// Classifies a request.
pub fn classify_request_execution_policy(request_text: &str) -> (r: RequestExecutionPolicy)
    ensures
        r == execution_policy(request_text@),
{
    let normalized = to_lowercase(request_text);
    let n = normalized.as_str();
    let is_browser_task = str_contains(n, "playwright") || str_contains(n, "browser") || str_contains(n, "ui test")
        || str_contains(n, "screenshot") || str_contains(n, "open url") || str_contains(n, "navigate");
    let explicit_playwright_requested = str_contains(n, "playwright");
    let explicit_cli_playwright_requested = str_contains(n, "playwright cli") || str_contains(n, "cli skill");
    RequestExecutionPolicy { is_browser_task, explicit_playwright_requested, explicit_cli_playwright_requested }
}

/// The Playwright task workflow, when the request asks for Playwright explicitly and
/// the registry has that workflow.
pub fn pin_playwright_workflow(registry: &WorkflowRegistry, policy: &RequestExecutionPolicy) -> (r: Option<WorkflowDefinition>)
    requires
        registry.wf(),
    ensures
        match r {
            Some(w) => policy.explicit_playwright_requested && registry@.contains_key(playwright_task_workflow_id())
                && registry@[playwright_task_workflow_id()] == w@,
            None => !policy.explicit_playwright_requested || !registry@.contains_key(playwright_task_workflow_id()),
        },
{
    if policy.explicit_playwright_requested {
        registry.get("playwright-task")
    } else {
        None
    }
}

/// Whether the workflow is the Playwright task workflow.
pub fn is_playwright_task_workflow(workflow: Option<&WorkflowDefinition>) -> (r: bool)
    ensures
        r == (match workflow {
            Some(w) => w.metadata.id@ == playwright_task_workflow_id(),
            None => false,
        }),
{
    match workflow {
        Some(w) => str_eq(w.metadata.id.as_str(), "playwright-task"),
        None => false,
    }
}

/// The execution instructions put in front of the prompt of a browser task.
pub open spec fn browser_directive(policy: RequestExecutionPolicy) -> Seq<char> {
    "Execution policy for browser tasks:\n- Prefer Playwright MCP/browser tools by default.\n- Use Playwright CLI only if the request explicitly asks for CLI.\n"@
        + (if policy.explicit_cli_playwright_requested {
        "- This request explicitly asked for Playwright CLI; CLI path is allowed.\n"@
    } else {
        seq![]
    }) + "\n"@
}

/// The prompt of a browser task gets the browser directive in front; other prompts
/// are unchanged.
pub open spec fn directed_prompt(prompt: Seq<char>, policy: RequestExecutionPolicy) -> Seq<char> {
    if policy.is_browser_task {
        browser_directive(policy) + prompt
    } else {
        prompt
    }
}

/// Applies the browser execution directive to a prompt.
pub fn apply_browser_execution_directive(prompt: String, policy: &RequestExecutionPolicy) -> (r: String)
    ensures
        r@ == directed_prompt(prompt@, *policy),
{
    if !policy.is_browser_task {
        return prompt;
    }
    let mut directive = chars_of(
        "Execution policy for browser tasks:\n- Prefer Playwright MCP/browser tools by default.\n- Use Playwright CLI only if the request explicitly asks for CLI.\n",
    );
    if policy.explicit_cli_playwright_requested {
        append_str(&mut directive, "- This request explicitly asked for Playwright CLI; CLI path is allowed.\n");
    }
    append_str(&mut directive, "\n");
    append_str(&mut directive, prompt.as_str());
    assert(directive@ =~= directed_prompt(prompt@, *policy));
    string_of(&directive)
}

/// The lower-cased message mentions a network failure: `enotfound`, `eai_again`,
/// `etimedout`, `registry.npmjs.org`, `network request failed` or `npm error network`.
pub open spec fn network_failure(message: Seq<char>) -> bool {
    let n = lowercase(message);
    contains(n, "enotfound"@) || contains(n, "eai_again"@) || contains(n, "etimedout"@) || contains(
        n,
        "registry.npmjs.org"@,
    ) || contains(n, "network request failed"@) || contains(n, "npm error network"@)
}

/// Whether a message shows that a network prerequisite failed.
pub fn contains_network_prereq_failure(message: &str) -> (r: bool)
    ensures
        r == network_failure(message@),
{
    let normalized = to_lowercase(message);
    let n = normalized.as_str();
    str_contains(n, "enotfound") || str_contains(n, "eai_again") || str_contains(n, "etimedout")
        || str_contains(n, "registry.npmjs.org") || str_contains(n, "network request failed") || str_contains(
        n,
        "npm error network",
    )
}

/// An error excerpt: `fallback` for a blank message, otherwise the first 220
/// characters of the message with its whitespace collapsed.
pub open spec fn error_excerpt(message: Seq<char>, fallback: Seq<char>) -> Seq<char> {
    if all_ws(message) {
        fallback
    } else {
        take_chars(collapse_ws(message), 220)
    }
}

/// An error excerpt, with the given text for a blank message.
pub fn excerpt_or(message: &str, fallback: &str) -> (r: String)
    ensures
        r@ == error_excerpt(message@, fallback@),
{
    let v = chars_of(message);
    if is_blank(&v) {
        return fallback.to_owned();
    }
    let collapsed = collapse_whitespace(&v);
    let t = take_prefix(&collapsed, 220);
    string_of(&t)
}

/// An excerpt of a preflight error.
pub fn compact_error_excerpt(message: &str) -> (r: String)
    ensures
        r@ == error_excerpt(message@, "preflight check failed without stderr output"@),
{
    excerpt_or(message, "preflight check failed without stderr output")
}

/// A setup script, trimmed, when it is not blank.
pub open spec fn normalized_script(value: Option<Seq<char>>) -> Option<Seq<char>> {
    match value {
        Some(v) => if trim(v).len() != 0 {
            Some(trim(v))
        } else {
            None
        },
        None => None,
    }
}

/// A setup script, trimmed, when one is given and it is not blank.
pub fn normalize_script(value: Option<&str>) -> (r: Option<String>)
    ensures
        match r {
            Some(s) => normalized_script(match value {
                Some(v) => Some(v@),
                None => None,
            }) == Some(s@),
            None => normalized_script(match value {
                Some(v) => Some(v@),
                None => None,
            }) is None,
        },
{
    match value {
        Some(v) => {
            let t = trim_string(v);
            if t.as_str().is_empty() {
                None
            } else {
                Some(t)
            }
        },
        None => None,
    }
}

/// The summary of a failed setup script: an excerpt of its standard error, else of
/// its standard output, else a note that it printed nothing.
pub open spec fn hook_failure_detail(stderr: Seq<char>, stdout: Seq<char>, fallback: Seq<char>, none: Seq<char>) -> Seq<char> {
    if !all_ws(stderr) {
        error_excerpt(stderr, fallback)
    } else if !all_ws(stdout) {
        error_excerpt(stdout, fallback)
    } else {
        none
    }
}

/// The summary recorded for a task whose workspace setup script failed.
pub open spec fn task_hook_summary(stderr: Seq<char>, stdout: Seq<char>) -> Seq<char> {
    "Workspace setup script failed: "@ + hook_failure_detail(
        stderr,
        stdout,
        "preflight check failed without stderr output"@,
        "workspace setup script failed with no output"@,
    )
}

/// Summarises a failed workspace setup script for the task record.
pub fn summarize_hook_failure_for_task(stderr: &str, stdout: &str) -> (r: String)
    ensures
        r@ == task_hook_summary(stderr@, stdout@),
{
    let detail = if !str_is_blank(stderr) {
        compact_error_excerpt(stderr)
    } else if !str_is_blank(stdout) {
        compact_error_excerpt(stdout)
    } else {
        "workspace setup script failed with no output".to_owned()
    };
    let mut v = chars_of("Workspace setup script failed: ");
    append_str(&mut v, detail.as_str());
    string_of(&v)
}

/// The summary recorded for a task that the preflight blocked.
pub open spec fn preflight_summary(e: CliPreflightError) -> Seq<char> {
    match e {
        CliPreflightError::MissingNpx => "Playwright CLI preflight failed: npx is not available."@,
        CliPreflightError::TimedOut(step) => "Playwright CLI preflight timed out while "@ + step@ + "."@,
        CliPreflightError::WrapperUnavailable(m) => "Playwright CLI preflight failed: "@ + m@,
        CliPreflightError::NetworkUnavailable(m) => "Playwright CLI preflight network failure: "@ + m@,
    }
}

/// Why the Playwright CLI preflight failed.
pub enum CliPreflightError {
    MissingNpx,
    /// A step ran past its time limit; the step.
    TimedOut(String),
    /// The wrapper could not be run; an excerpt of why.
    WrapperUnavailable(String),
    /// The wrapper hit a network failure; an excerpt of its output.
    NetworkUnavailable(String),
}

impl CliPreflightError {
    /// The summary recorded for a blocked task.
    pub fn summary(&self) -> (r: String)
        ensures
            r@ == preflight_summary(*self),
    {
        match self {
            CliPreflightError::MissingNpx => "Playwright CLI preflight failed: npx is not available.".to_owned(),
            CliPreflightError::TimedOut(step) => {
                let mut v = chars_of("Playwright CLI preflight timed out while ");
                append_str(&mut v, step.as_str());
                append_str(&mut v, ".");
                string_of(&v)
            },
            CliPreflightError::WrapperUnavailable(m) => {
                let mut v = chars_of("Playwright CLI preflight failed: ");
                append_str(&mut v, m.as_str());
                string_of(&v)
            },
            CliPreflightError::NetworkUnavailable(m) => {
                let mut v = chars_of("Playwright CLI preflight network failure: ");
                append_str(&mut v, m.as_str());
                string_of(&v)
            },
        }
    }
}

/// The preflight error for a wrapper check that exited unsuccessfully: a network
/// failure when its trimmed standard error shows one, otherwise an unavailable
/// wrapper; either way with an excerpt of that standard error.
pub fn classify_wrapper_failure(stderr: &str) -> (r: CliPreflightError)
    ensures
        ({
            let t = trim(stderr@);
            let e = error_excerpt(t, "preflight check failed without stderr output"@);
            match r {
                CliPreflightError::NetworkUnavailable(m) => network_failure(t) && m@ == e,
                CliPreflightError::WrapperUnavailable(m) => !network_failure(t) && m@ == e,
                _ => false,
            }
        }),
{
    let trimmed = trim_string(stderr);
    let excerpt = compact_error_excerpt(trimmed.as_str());
    if contains_network_prereq_failure(trimmed.as_str()) {
        CliPreflightError::NetworkUnavailable(excerpt)
    } else {
        CliPreflightError::WrapperUnavailable(excerpt)
    }
}

/// The text of a trailing `/` run removed (`str::trim_end_matches('/')`).
pub open spec fn trim_trailing_slashes(s: Seq<char>) -> Seq<char>
    decreases s.len(),
{
    if s.len() > 0 && s.last() == '/' {
        trim_trailing_slashes(s.drop_last())
    } else {
        s
    }
}

/// The message posted when a task starts in an environment.
pub open spec fn kickoff_message(portal_base_url: Seq<char>, session_id: Seq<char>, env_name: Option<Seq<char>>, workflow_name: Option<Seq<char>>) -> Seq<char> {
    "Kicked off the task in environment `"@ + (match env_name {
        Some(n) => n,
        None => "general"@,
    }) + "` using workflow `"@ + (match workflow_name {
        Some(n) => n,
        None => "Generic run"@,
    }) + "`.\nOpen task: "@ + trim_trailing_slashes(portal_base_url) + "/tasks/"@ + session_id
}

/// Builds the message posted when a task starts.
pub fn build_task_kickoff_message(
    config: &Config,
    session: &Session,
    environment: Option<&Environment>,
    workflow: Option<&WorkflowDefinition>,
) -> (r: String)
    ensures
        r@ == kickoff_message(
            config.server.portal_base_url@,
            session.id@,
            match environment {
                Some(e) => Some(e.name@),
                None => None,
            },
            match workflow {
                Some(w) => Some(w.metadata.name@),
                None => None,
            },
        ),
{
    kickoff_text(config.server.portal_base_url.as_str(), session.id.as_str(), environment, workflow)
}

/// The message posted when the task of a session starts.
pub fn kickoff_text(
    portal_base_url: &str,
    session_id: &str,
    environment: Option<&Environment>,
    workflow: Option<&WorkflowDefinition>,
) -> (r: String)
    ensures
        r@ == kickoff_message(
            portal_base_url@,
            session_id@,
            match environment {
                Some(e) => Some(e.name@),
                None => None,
            },
            match workflow {
                Some(w) => Some(w.metadata.name@),
                None => None,
            },
        ),
{
    let mut v = chars_of("Kicked off the task in environment `");
    match environment {
        Some(e) => append_str(&mut v, e.name.as_str()),
        None => append_str(&mut v, "general"),
    }
    append_str(&mut v, "` using workflow `");
    match workflow {
        Some(w) => append_str(&mut v, w.metadata.name.as_str()),
        None => append_str(&mut v, "Generic run"),
    }
    append_str(&mut v, "`.\nOpen task: ");
    let base = chars_of(portal_base_url);
    let mut end: usize = base.len();
    assert(base@.subrange(0, end as int) =~= base@);
    while end > 0 && base[end - 1] == '/'
        invariant
            end <= base@.len(),
            trim_trailing_slashes(base@) == trim_trailing_slashes(base@.subrange(0, end as int)),
        decreases end,
    {
        assert(base@.subrange(0, end as int).drop_last() =~= base@.subrange(0, end - 1));
        end = end - 1;
    }
    proof {
        if end > 0 {
            assert(base@.subrange(0, end as int).last() == base@[end - 1]);
        }
    }
    append_slice(&mut v, &base[0..end]);
    append_str(&mut v, "/tasks/");
    append_str(&mut v, session_id);
    string_of(&v)
}

/// Whether a kickoff message is posted: only for threads in an environment.
pub fn should_post_task_kickoff_message(environment: Option<&Environment>) -> (r: bool)
    ensures
        r == environment.is_some(),
{
    environment.is_some()
}

/// The reply posted when a run finishes.
pub open spec fn reply_text(status: Seq<char>, stdout: Seq<char>, stderr: Seq<char>) -> Seq<char> {
    if status == "cancelled"@ {
        "Task cancelled manually."@
    } else if status == "timed_out"@ {
        "Task timed out before completion."@
    } else if status == "succeeded"@ && !all_ws(stdout) {
        trim(stdout)
    } else if network_failure(stderr) {
        "Task failed due to browser runtime prerequisites/network availability."@
    } else if !all_ws(stderr) {
        "Task failed.\n"@ + error_excerpt(trim(stderr), "preflight check failed without stderr output"@)
    } else {
        "Task finished with status "@ + status
    }
}

/// Builds the reply posted when a run finishes.
pub fn build_reply_text(output: &RunnerOutput) -> (r: String)
    ensures
        r@ == reply_text(output.status@, output.stdout@, output.stderr@),
{
    let status = output.status.as_str();
    if str_eq(status, "cancelled") {
        return "Task cancelled manually.".to_owned();
    }
    if str_eq(status, "timed_out") {
        return "Task timed out before completion.".to_owned();
    }
    if str_eq(status, "succeeded") && !str_is_blank(output.stdout.as_str()) {
        return trim_string(output.stdout.as_str());
    }
    if contains_network_prereq_failure(output.stderr.as_str()) {
        return "Task failed due to browser runtime prerequisites/network availability.".to_owned();
    }
    if !str_is_blank(output.stderr.as_str()) {
        let t = trim_string(output.stderr.as_str());
        let e = compact_error_excerpt(t.as_str());
        let mut v = chars_of("Task failed.\n");
        append_str(&mut v, e.as_str());
        return string_of(&v);
    }
    let mut v = chars_of("Task finished with status ");
    append_str(&mut v, status);
    string_of(&v)
}

/// The error summary stored for a finished run; none for a success.
pub open spec fn error_summary(status: Seq<char>, stderr: Seq<char>) -> Option<Seq<char>> {
    if status == "succeeded"@ {
        None
    } else if status == "cancelled"@ {
        Some("Task was cancelled manually."@)
    } else if status == "timed_out"@ {
        Some("Task execution timed out before completion."@)
    } else if network_failure(stderr) {
        Some("Browser runtime prerequisites/network availability issue."@)
    } else if !all_ws(stderr) {
        Some(error_excerpt(trim(stderr), "preflight check failed without stderr output"@))
    } else {
        Some("Task finished with status "@ + status)
    }
}

/// Builds the error summary stored for a finished run.
pub fn summarize_error_for_storage(output: &RunnerOutput) -> (r: Option<String>)
    ensures
        match r {
            Some(s) => error_summary(output.status@, output.stderr@) == Some(s@),
            None => error_summary(output.status@, output.stderr@) is None,
        },
{
    let status = output.status.as_str();
    if str_eq(status, "succeeded") {
        return None;
    }
    if str_eq(status, "cancelled") {
        return Some("Task was cancelled manually.".to_owned());
    }
    if str_eq(status, "timed_out") {
        return Some("Task execution timed out before completion.".to_owned());
    }
    if contains_network_prereq_failure(output.stderr.as_str()) {
        return Some("Browser runtime prerequisites/network availability issue.".to_owned());
    }
    if !str_is_blank(output.stderr.as_str()) {
        let t = trim_string(output.stderr.as_str());
        return Some(compact_error_excerpt(t.as_str()));
    }
    let mut v = chars_of("Task finished with status ");
    append_str(&mut v, status);
    Some(string_of(&v))
}

/// Why a thread cannot use the requested environment.
pub enum EnvironmentBindingError {
    /// The thread is bound to another environment.
    OtherEnvironment,
    /// The thread has a general workspace.
    GeneralWorkspace,
}

impl EnvironmentBindingError {
    /// The message posted to the thread.
    pub fn message(&self) -> (r: String)
        ensures
            r@ == binding_error_message(*self),
    {
        match self {
            EnvironmentBindingError::OtherEnvironment => "This thread already has a workspace bound to a different environment. Start a new thread to use another environment.".to_owned(),
            EnvironmentBindingError::GeneralWorkspace => "This thread already has a general workspace. Start a new thread to use an environment.".to_owned(),
        }
    }
}

/// The message posted for a refused binding.
pub open spec fn binding_error_message(e: EnvironmentBindingError) -> Seq<char> {
    match e {
        EnvironmentBindingError::OtherEnvironment => "This thread already has a workspace bound to a different environment. Start a new thread to use another environment."@,
        EnvironmentBindingError::GeneralWorkspace => "This thread already has a general workspace. Start a new thread to use an environment."@,
    }
}

/// A thread keeps the workspace it started with: a thread bound to one environment
/// cannot be used with another, and a general thread cannot take an environment.
pub open spec fn binding_check(session_env: Option<Seq<char>>, requested: Option<Seq<char>>) -> Option<EnvironmentBindingError> {
    match (session_env, requested) {
        (Some(existing), Some(req)) => if existing != req {
            Some(EnvironmentBindingError::OtherEnvironment)
        } else {
            None
        },
        (None, Some(_)) => Some(EnvironmentBindingError::GeneralWorkspace),
        _ => None,
    }
}

/// Checks that a thread may use the requested environment.
pub fn enforce_environment_binding(session: &Session, requested_environment: Option<&Environment>) -> (r: Result<(), EnvironmentBindingError>)
    ensures
        match r {
            Ok(()) => binding_check(crate::text::opt_view(session.environment_id), match requested_environment {
                Some(e) => Some(e.id@),
                None => None,
            }) is None,
            Err(e) => binding_check(crate::text::opt_view(session.environment_id), match requested_environment {
                Some(e) => Some(e.id@),
                None => None,
            }) == Some(e),
        },
{
    match (&session.environment_id, requested_environment) {
        (Some(existing_id), Some(requested)) => {
            if !str_eq(existing_id.as_str(), requested.id.as_str()) {
                Err(EnvironmentBindingError::OtherEnvironment)
            } else {
                Ok(())
            }
        },
        (None, Some(_)) => Err(EnvironmentBindingError::GeneralWorkspace),
        _ => Ok(()),
    }
}

/// A thread that stays with its environment passes the binding check, and a thread
/// never moves between a general workspace and an environment.
pub proof fn lemma_binding_is_sticky(session_env: Option<Seq<char>>, requested: Option<Seq<char>>)
    ensures
        binding_check(session_env, requested) is None <==> (requested is None || session_env == requested),
{
}

/// A request is a browser task as soon as its lower-cased text mentions any of
/// `playwright`, `browser`, `ui test`, `screenshot`, `open url` or `navigate`, and
/// only then; asking for Playwright, or for its CLI, is also a browser task.
pub proof fn lemma_browser_words_mark_browser_tasks(request_text: Seq<char>)
    ensures
        contains(lowercase(request_text), "playwright"@) ==> execution_policy(request_text).is_browser_task,
        contains(lowercase(request_text), "browser"@) ==> execution_policy(request_text).is_browser_task,
        contains(lowercase(request_text), "ui test"@) ==> execution_policy(request_text).is_browser_task,
        contains(lowercase(request_text), "screenshot"@) ==> execution_policy(request_text).is_browser_task,
        contains(lowercase(request_text), "open url"@) ==> execution_policy(request_text).is_browser_task,
        contains(lowercase(request_text), "navigate"@) ==> execution_policy(request_text).is_browser_task,
        execution_policy(request_text).is_browser_task ==> {
            let n = lowercase(request_text);
            ||| contains(n, "playwright"@)
            ||| contains(n, "browser"@)
            ||| contains(n, "ui test"@)
            ||| contains(n, "screenshot"@)
            ||| contains(n, "open url"@)
            ||| contains(n, "navigate"@)
        },
        execution_policy(request_text).explicit_playwright_requested <==> contains(
            lowercase(request_text),
            "playwright"@,
        ),
        execution_policy(request_text).explicit_playwright_requested ==> execution_policy(request_text).is_browser_task,
{
}

} // verus!
