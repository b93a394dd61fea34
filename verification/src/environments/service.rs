//! Environment decisions: which environment a prompt names, and the steps of a
//! source-clone sync.
use vstd::prelude::*;
use crate::db::models::Environment;
use crate::slack::formatter::json_string_literal;
use crate::tasks::orchestrator::{error_excerpt, excerpt_or, hook_failure_detail, normalized_script};
pub use crate::tasks::orchestrator::normalize_script;
use crate::text::{
    append_str, chars_of, contains, lines, lowercase, opt_view, split_lines, str_contains, str_is_blank,
    string_of, strings_view, to_lowercase, vecs_view, all_ws, str_eq,
};
use crate::workspaces::session_workspace::HookRunResult;

verus! {

/// The fields of an environment that a user creates or edits.
#[derive(Debug)]
pub struct CreateEnvironmentInput {
    pub name: String,
    pub slug: String,
    pub git_ssh_url: String,
    pub default_branch: String,
    pub aliases: Vec<String>,
    pub enabled: Option<bool>,
    pub source_setup_script: Option<String>,
    pub workspace_setup_script: Option<String>,
}

/// An environment and the path of its source clone.
#[derive(Debug)]
pub struct EnvironmentWithPaths {
    pub environment: Environment,
    pub source_path: String,
}

/// The answer to a deletion.
#[derive(Debug)]
pub struct DeleteEnvironmentResponse {
    pub deleted_id: String,
}

// ---------------------------------------------------------------------------
// Aliases
// ---------------------------------------------------------------------------

/// The strings that `serde_json` reads from a JSON array of strings, or none when
/// the text is not such an array.
pub uninterp spec fn json_string_array(s: Seq<char>) -> Option<Seq<Seq<char>>>;

/// Calls `serde_json::from_str::<Vec<String>>`. Trusted: the result is the named
/// reading of the text, `None` exactly when `serde_json` reports an error.
#[verifier::external_body]
pub(crate) fn parse_json_string_array(s: &str) -> (r: Option<Vec<String>>)
    ensures
        match r {
            Some(v) => json_string_array(s@) == Some(strings_view(v@)),
            None => json_string_array(s@) is None,
        },
{
    serde_json::from_str::<Vec<String>>(s).ok()
}

/// The string literals of a list of strings, separated by commas.
pub open spec fn json_joined_literals(v: Seq<Seq<char>>) -> Seq<char>
    decreases v.len(),
{
    if v.len() == 0 {
        seq![]
    } else if v.len() == 1 {
        json_string_literal(v[0])
    } else {
        json_joined_literals(v.drop_last()) + seq![','] + json_string_literal(v.last())
    }
}

/// The JSON text that `serde_json` writes for an array of strings: the string
/// literals between square brackets, separated by commas, with no spaces.
pub open spec fn json_of_string_array(v: Seq<Seq<char>>) -> Seq<char> {
    seq!['['] + json_joined_literals(v) + seq![']']
}

/// Calls `serde_json::to_string` on a list of strings. Trusted: the result is the
/// named JSON text of the list. `serde_json` fails only for a `Serialize` impl that
/// chooses to or for a map with non-string keys, so a list of strings is always
/// written.
#[verifier::external_body]
pub(crate) fn to_json_string_array(v: &Vec<String>) -> (r: String)
    ensures
        r@ == json_of_string_array(strings_view(v@)),
{
    serde_json::to_string(v).unwrap_or_default()
}

/// An environment's aliases: its alias text read as a JSON array of strings, or
/// none when it is not one.
pub open spec fn aliases_of(e: Environment) -> Seq<Seq<char>> {
    match json_string_array(e.aliases@) {
        Some(v) => v,
        None => seq![],
    }
}

/// A lower-cased prompt names an environment when it mentions its slug, its name
/// or one of its aliases, compared case-insensitively.
pub open spec fn prompt_names(prompt_lower: Seq<char>, e: Environment) -> bool {
    contains(prompt_lower, lowercase(e.slug@)) || contains(prompt_lower, lowercase(e.name@)) || exists|k: int|
        0 <= k < aliases_of(e).len() && contains(prompt_lower, lowercase(#[trigger] aliases_of(e)[k]))
}

/// The environments that a prompt names, by position.
pub open spec fn named_positions(envs: Seq<Environment>, prompt_lower: Seq<char>) -> Seq<int>
    decreases envs.len(),
{
    if envs.len() == 0 {
        seq![]
    } else {
        let prev = named_positions(envs.drop_last(), prompt_lower);
        if prompt_names(prompt_lower, envs.last()) {
            prev.push(envs.len() - 1)
        } else {
            prev
        }
    }
}

/// The environment a prompt names: the only one it names, and none when it names
/// no environment or several.
pub open spec fn named_environment(envs: Seq<Environment>, prompt: Seq<char>) -> Option<int> {
    let p = named_positions(envs, lowercase(prompt));
    if p.len() == 1 {
        Some(p[0])
    } else {
        None
    }
}

/// A lower-cased prompt mentions none of an environment's slug, name or aliases,
/// each compared lower-cased.
pub open spec fn mentions_nothing_of(prompt_lower: Seq<char>, e: Environment) -> bool {
    &&& !contains(prompt_lower, lowercase(e.slug@))
    &&& !contains(prompt_lower, lowercase(e.name@))
    &&& forall|k: int| 0 <= k < aliases_of(e).len() ==> !contains(prompt_lower, lowercase(#[trigger] aliases_of(e)[k]))
}

proof fn lemma_named_positions_single(envs: Seq<Environment>, prompt_lower: Seq<char>, i: int)
    requires
        0 <= i,
        i < envs.len() ==> prompt_names(prompt_lower, envs[i]),
        forall|j: int| 0 <= j < envs.len() && j != i ==> !prompt_names(prompt_lower, #[trigger] envs[j]),
    ensures
        named_positions(envs, prompt_lower) == (if i < envs.len() {
            seq![i]
        } else {
            seq![]
        }),
    decreases envs.len(),
{
    if envs.len() > 0 {
        let init = envs.drop_last();
        assert forall|j: int| 0 <= j < init.len() && j != i implies !prompt_names(prompt_lower, #[trigger] init[j]) by {
            assert(init[j] == envs[j]);
        }
        if i < init.len() {
            assert(init[i] == envs[i]);
        }
        lemma_named_positions_single(init, prompt_lower, i);
        assert(envs.last() == envs[envs.len() - 1]);
    }
}

/// A prompt that mentions the name, the slug or an alias of one environment, and
/// nothing of any other, resolves to that environment; the name, slug and aliases
/// are all compared with the prompt lower-cased.
pub proof fn lemma_prompt_naming_one_environment_picks_it(envs: Seq<Environment>, prompt: Seq<char>, i: int)
    requires
        0 <= i < envs.len(),
        ({
            let pl = lowercase(prompt);
            ||| contains(pl, lowercase(envs[i].name@))
            ||| contains(pl, lowercase(envs[i].slug@))
            ||| exists|k: int|
                0 <= k < aliases_of(envs[i]).len() && contains(pl, lowercase(#[trigger] aliases_of(envs[i])[k]))
        }),
        forall|j: int| 0 <= j < envs.len() && j != i ==> mentions_nothing_of(lowercase(prompt), #[trigger] envs[j]),
    ensures
        named_environment(envs, prompt) == Some(i),
{
    let pl = lowercase(prompt);
    assert forall|j: int| 0 <= j < envs.len() && j != i implies !prompt_names(pl, #[trigger] envs[j]) by {
        assert(mentions_nothing_of(pl, envs[j]));
    }
    lemma_named_positions_single(envs, pl, i);
}

fn names_environment(prompt_lower: &str, e: &Environment) -> (r: bool)
    ensures
        r == prompt_names(prompt_lower@, *e),
{
    let slug = to_lowercase(e.slug.as_str());
    if str_contains(prompt_lower, slug.as_str()) {
        return true;
    }
    let name = to_lowercase(e.name.as_str());
    if str_contains(prompt_lower, name.as_str()) {
        return true;
    }
    let aliases = match parse_json_string_array(e.aliases.as_str()) {
        Some(v) => v,
        None => Vec::new(),
    };
    assert(strings_view(aliases@) == aliases_of(*e)) by {
        if json_string_array(e.aliases@) is None {
            assert(strings_view(aliases@) =~= seq![]);
        }
    }
    let mut k: usize = 0;
    while k < aliases.len()
        invariant
            k <= aliases.len(),
            strings_view(aliases@) == aliases_of(*e),
            forall|j: int| 0 <= j < k ==> !contains(prompt_lower@, lowercase(#[trigger] aliases_of(*e)[j])),
        decreases aliases.len() - k,
    {
        let a = to_lowercase(aliases[k].as_str());
        assert(aliases_of(*e)[k as int] == aliases@[k as int]@);
        if str_contains(prompt_lower, a.as_str()) {
            return true;
        }
        k = k + 1;
    }
    false
}

/// The position of the only environment that the prompt names, if exactly one is.
pub fn resolve_from_prompt(environments: &Vec<Environment>, prompt: &str) -> (r: Option<usize>)
    ensures
        match r {
            Some(i) => named_environment(environments@, prompt@) == Some(i as int) && i < environments.len(),
            None => named_environment(environments@, prompt@) is None,
        },
{
    let prompt_lower = to_lowercase(prompt);
    let ghost pl = prompt_lower@;
    let mut matches: Vec<usize> = Vec::new();
    let mut i: usize = 0;
    assert(environments@.take(0) =~= seq![]);
    while i < environments.len()
        invariant
            i <= environments.len(),
            pl == prompt_lower@,
            pl == lowercase(prompt@),
            matches@.map_values(|x: usize| x as int) == named_positions(environments@.take(i as int), pl),
            forall|k: int| 0 <= k < matches@.len() ==> #[trigger] matches@[k] < i,
        decreases environments.len() - i,
    {
        proof {
            assert(environments@.take(i + 1).drop_last() =~= environments@.take(i as int));
            assert(environments@.take(i + 1).last() == environments@[i as int]);
        }
        if names_environment(prompt_lower.as_str(), &environments[i]) {
            let ghost before = matches@;
            matches.push(i);
            assert(matches@.map_values(|x: usize| x as int) =~= before.map_values(|x: usize| x as int).push(i as int));
        }
        i = i + 1;
    }
    assert(environments@.take(environments.len() as int) =~= environments@);
    if matches.len() == 1 {
        assert(matches@.map_values(|x: usize| x as int)[0] == matches@[0] as int);
        Some(matches[0])
    } else {
        None
    }
}

// ---------------------------------------------------------------------------
// Source sync
// ---------------------------------------------------------------------------

/// An excerpt of a sync error: the hook fallback text for a blank message.
pub fn compact_error_excerpt(message: &str) -> (r: String)
    ensures
        r@ == error_excerpt(message@, "hook command failed without stderr output"@),
{
    excerpt_or(message, "hook command failed without stderr output")
}

/// Summarises a failed source setup script: `<prefix>: ` and an excerpt of its
/// standard error, else of its standard output, else `no output captured`.
pub fn summarize_hook_failure(prefix: &str, stderr: &str, stdout: &str) -> (r: String)
    ensures
        r@ == prefix@ + ": "@ + hook_failure_detail(
            stderr@,
            stdout@,
            "hook command failed without stderr output"@,
            "no output captured"@,
        ),
{
    let detail = if !str_is_blank(stderr) {
        compact_error_excerpt(stderr)
    } else if !str_is_blank(stdout) {
        compact_error_excerpt(stdout)
    } else {
        "no output captured".to_owned()
    };
    let mut v = chars_of(prefix);
    append_str(&mut v, ": ");
    append_str(&mut v, detail.as_str());
    string_of(&v)
}

/// A sync log entry ends with a newline.
pub open spec fn log_chunk(message: Seq<char>) -> Seq<char> {
    if message.len() > 0 && message.last() == '\n' {
        message
    } else {
        message.push('\n')
    }
}

/// A text that ends with a newline.
pub open spec fn ends_with_newline(s: Seq<char>) -> bool {
    s.len() > 0 && s.last() == '\n'
}

/// A log chunk ends with a newline.
pub proof fn lemma_log_chunk_ends_with_newline(message: Seq<char>)
    ensures
        ends_with_newline(log_chunk(message)),
{
}

/// The stored text of a sync log entry.
pub fn sync_log_chunk(message: &str) -> (r: String)
    ensures
        r@ == log_chunk(message@),
{
    let mut v = chars_of(message);
    if v.len() > 0 && v[v.len() - 1] == '\n' {
        string_of(&v)
    } else {
        v.push('\n');
        string_of(&v)
    }
}

/// The stream a sync log entry belongs to.
#[derive(Clone, Copy, PartialEq, Eq, Structural, Debug)]
pub enum LogStream {
    Stdout,
    Stderr,
}

/// One sync log entry: its stream and its text.
#[derive(Debug)]
pub struct SyncLog {
    pub stream: LogStream,
    pub chunk: String,
}

/// What the sync needs done next.
#[derive(Debug)]
pub enum SyncCommand {
    /// Reset the source clone (from the previous slug to the current one).
    ResetClone,
    /// Run the source setup script in the clone at the given path.
    RunHook { script: String, source_path: String },
    /// Record the environment as failed with the given summary.
    MarkFailed(String),
    /// Record the environment as ready.
    MarkReady,
}

/// What has happened since the previous step.
#[derive(Debug)]
pub enum SyncEvent {
    /// The sync begins.
    Started,
    /// Resetting the clone finished: its path, or the error's text.
    CloneReset(Result<String, String>),
    /// The setup script finished.
    HookFinished(HookRunResult),
}

/// Where a sync stands.
#[derive(Clone, Copy, PartialEq, Eq, Structural, Debug)]
pub enum SyncStage {
    Begin,
    AwaitingClone,
    AwaitingHook,
    Finished,
}

/// A source-clone sync of one environment.
pub struct SourceSync {
    pub stage: SyncStage,
    /// The sequence number of the next log entry.
    pub next_sequence: i64,
    /// Every log entry the sync has handed out so far, in order.
    pub written: Ghost<Seq<(LogStream, Seq<char>)>>,
    pub git_ssh_url: String,
    pub default_branch: String,
    pub setup_script: Option<String>,
}

/// One step of a sync: whether the environment's earlier log entries are to be
/// cleared first, the log entries to append, in order, with their sequence numbers,
/// and the command to carry out, if any.
#[derive(Debug)]
pub struct SyncStep {
    pub clear_events: bool,
    pub logs: Vec<SyncLog>,
    /// The sequence number of each log entry, position by position.
    pub sequences: Vec<i64>,
    pub command: Option<SyncCommand>,
}

/// The sequence number at a position of the numbering: the position itself, held at
/// the largest `i64` should the numbering ever reach it.
pub open spec fn capped_sequence(n: int) -> int {
    if n <= i64::MAX {
        n
    } else {
        i64::MAX as int
    }
}

/// The value of a log entry.
pub open spec fn log_view(l: SyncLog) -> (LogStream, Seq<char>) {
    (l.stream, l.chunk@)
}

/// The values of a list of log entries.
pub open spec fn logs_view(v: Seq<SyncLog>) -> Seq<(LogStream, Seq<char>)> {
    v.map_values(|l: SyncLog| log_view(l))
}

/// The log entries for the lines of a script's output: each standard-output line,
/// then each standard-error line.
pub open spec fn output_logs(stdout: Seq<char>, stderr: Seq<char>) -> Seq<(LogStream, Seq<char>)> {
    lines(stdout).map_values(|l: Seq<char>| (LogStream::Stdout, log_chunk(l))) + lines(stderr).map_values(
        |l: Seq<char>| (LogStream::Stderr, log_chunk(l)),
    )
}

impl SourceSync {
    /// A sync of the given environment that has not begun; its log entries are
    /// numbered from 0.
    pub fn new(environment: &Environment) -> (r: Self)
        ensures
            r.stage == SyncStage::Begin,
            r.next_sequence == 0,
            r.written@ == Seq::<(LogStream, Seq<char>)>::empty(),
            r.wf(),
            r.git_ssh_url@ == environment.git_ssh_url@,
            r.default_branch@ == environment.default_branch@,
            opt_view(r.setup_script) == normalized_script(opt_view(environment.source_setup_script)),
    {
        let script = match &environment.source_setup_script {
            Some(s) => normalize_script(Some(s.as_str())),
            None => None,
        };
        SourceSync {
            stage: SyncStage::Begin,
            next_sequence: 0,
            written: Ghost(Seq::empty()),
            git_ssh_url: environment.git_ssh_url.clone(),
            default_branch: environment.default_branch.clone(),
            setup_script: script,
        }
    }

    /// What a step does, given the stage and the event: a sync logs that it starts
    /// and resets the clone; a failed reset is logged and marks the environment
    /// failed; a successful reset is logged, then the setup script runs if there is
    /// one, else the environment is marked ready; the script's output is logged line
    /// by line, and a failed script marks the environment failed, a successful one
    /// ready. Any other event at any stage does nothing.
    pub open spec fn step_spec(
        stage: SyncStage,
        url: Seq<char>,
        branch: Seq<char>,
        script: Option<Seq<char>>,
        event: SyncEvent,
    ) -> (SyncStage, Seq<(LogStream, Seq<char>)>, Option<SyncCommandView>) {
        match (stage, event) {
            (SyncStage::Begin, SyncEvent::Started) => (
                SyncStage::AwaitingClone,
                seq![
                    (LogStream::Stdout, log_chunk("Starting source cache sync..."@)),
                    (LogStream::Stdout, log_chunk("Syncing "@ + url + " on branch "@ + branch)),
                ],
                Some(SyncCommandView::ResetClone),
            ),
            (SyncStage::AwaitingClone, SyncEvent::CloneReset(Err(msg))) => {
                let summary = error_excerpt(msg@, "hook command failed without stderr output"@);
                (
                    SyncStage::Finished,
                    seq![(LogStream::Stderr, log_chunk("Source sync failed: "@ + summary))],
                    Some(SyncCommandView::MarkFailed(summary)),
                )
            },
            (SyncStage::AwaitingClone, SyncEvent::CloneReset(Ok(path))) => {
                let ready = (LogStream::Stdout, log_chunk("Source cache ready at "@ + path@));
                match script {
                    Some(s) => (
                        SyncStage::AwaitingHook,
                        seq![ready, (LogStream::Stdout, log_chunk("[source setup] running configured setup script"@))],
                        Some(SyncCommandView::RunHook(s, path@)),
                    ),
                    None => (
                        SyncStage::Finished,
                        seq![ready, (LogStream::Stdout, log_chunk("Environment source cache sync completed."@))],
                        Some(SyncCommandView::MarkReady),
                    ),
                }
            },
            (SyncStage::AwaitingHook, SyncEvent::HookFinished(h)) => {
                let out = output_logs(h.stdout@, h.stderr@);
                if h.succeeded_spec() {
                    (
                        SyncStage::Finished,
                        out + seq![
                            (LogStream::Stdout, log_chunk("[source setup] completed successfully"@)),
                            (LogStream::Stdout, log_chunk("Environment source cache sync completed."@)),
                        ],
                        Some(SyncCommandView::MarkReady),
                    )
                } else {
                    let summary = "Source setup script failed"@ + ": "@ + hook_failure_detail(
                        h.stderr@,
                        h.stdout@,
                        "hook command failed without stderr output"@,
                        "no output captured"@,
                    );
                    (
                        SyncStage::Finished,
                        out + seq![(LogStream::Stderr, log_chunk(summary))],
                        Some(SyncCommandView::MarkFailed(summary)),
                    )
                }
            },
            _ => (stage, seq![], None),
        }
    }
}

/// The value of a sync command.
pub enum SyncCommandView {
    ResetClone,
    RunHook(Seq<char>, Seq<char>),
    MarkFailed(Seq<char>),
    MarkReady,
}

/// The value of an optional sync command.
pub open spec fn command_view(c: Option<SyncCommand>) -> Option<SyncCommandView> {
    match c {
        Some(SyncCommand::ResetClone) => Some(SyncCommandView::ResetClone),
        Some(SyncCommand::RunHook { script, source_path }) => Some(SyncCommandView::RunHook(script@, source_path@)),
        Some(SyncCommand::MarkFailed(s)) => Some(SyncCommandView::MarkFailed(s@)),
        Some(SyncCommand::MarkReady) => Some(SyncCommandView::MarkReady),
        None => None,
    }
}

fn push_log(logs: &mut Vec<SyncLog>, stream: LogStream, message: &str)
    ensures
        logs_view(final(logs)@) == logs_view(old(logs)@).push((stream, log_chunk(message@))),
{
    let ghost before = logs_view(logs@);
    let chunk = sync_log_chunk(message);
    let l = SyncLog { stream, chunk };
    logs.push(l);
    assert(logs_view(logs@) =~= before.push((stream, log_chunk(message@))));
}

fn push_output_lines(logs: &mut Vec<SyncLog>, stream: LogStream, text: &str)
    ensures
        logs_view(final(logs)@) == logs_view(old(logs)@) + lines(text@).map_values(|l: Seq<char>| (stream, log_chunk(l))),
{
    let tv = chars_of(text);
    let ls = split_lines(&tv);
    let ghost lv = vecs_view(ls@);
    let ghost start = logs_view(logs@);
    let mut i: usize = 0;
    assert(lv.take(0).map_values(|l: Seq<char>| (stream, log_chunk(l))) =~= seq![]);
    assert(start =~= start + lv.take(0).map_values(|l: Seq<char>| (stream, log_chunk(l))));
    while i < ls.len()
        invariant
            i <= ls.len(),
            lv == vecs_view(ls@),
            lv == lines(text@),
            logs_view(logs@) == start + lv.take(i as int).map_values(|l: Seq<char>| (stream, log_chunk(l))),
        decreases ls.len() - i,
    {
        let line = string_of(ls[i].as_slice());
        push_log(logs, stream, line.as_str());
        proof {
            assert(lv.take(i + 1) =~= lv.take(i as int).push(lv[i as int]));
            assert(lv.take(i + 1).map_values(|l: Seq<char>| (stream, log_chunk(l))) =~= lv.take(i as int).map_values(
                |l: Seq<char>| (stream, log_chunk(l)),
            ).push((stream, log_chunk(lv[i as int]))));
        }
        i = i + 1;
    }
    assert(lv.take(ls.len() as int) =~= lv);
}

impl SourceSync {
    /// Advances the stage by one event: the log entries and the command.
    fn advance(&mut self, event: SyncEvent) -> (r: (Vec<SyncLog>, Option<SyncCommand>))
        ensures
            ({
                let (stage, logs, command) = Self::step_spec(
                    old(self).stage,
                    old(self).git_ssh_url@,
                    old(self).default_branch@,
                    opt_view(old(self).setup_script),
                    event,
                );
                &&& final(self).stage == stage
                &&& logs_view(r.0@) == logs
                &&& command_view(r.1) == command
                &&& final(self).next_sequence == old(self).next_sequence
                &&& final(self).written == old(self).written
                &&& final(self).git_ssh_url@ == old(self).git_ssh_url@
                &&& final(self).default_branch@ == old(self).default_branch@
                &&& opt_view(final(self).setup_script) == opt_view(old(self).setup_script)
            }),
    {
        let mut logs: Vec<SyncLog> = Vec::new();
        let ghost ev = event;
        match (self.stage, event) {
            (SyncStage::Begin, SyncEvent::Started) => {
                push_log(&mut logs, LogStream::Stdout, "Starting source cache sync...");
                let mut m = chars_of("Syncing ");
                append_str(&mut m, self.git_ssh_url.as_str());
                append_str(&mut m, " on branch ");
                append_str(&mut m, self.default_branch.as_str());
                let ms = string_of(&m);
                push_log(&mut logs, LogStream::Stdout, ms.as_str());
                self.stage = SyncStage::AwaitingClone;
                proof {
                    assert(logs_view(logs@) =~= seq![
                        (LogStream::Stdout, log_chunk("Starting source cache sync..."@)),
                        (LogStream::Stdout, log_chunk("Syncing "@ + old(self).git_ssh_url@ + " on branch "@ + old(self).default_branch@)),
                    ]);
                }
                (logs, Some(SyncCommand::ResetClone))
            },
            (SyncStage::AwaitingClone, SyncEvent::CloneReset(Err(msg))) => {
                let summary = compact_error_excerpt(msg.as_str());
                let mut m = chars_of("Source sync failed: ");
                append_str(&mut m, summary.as_str());
                let ms = string_of(&m);
                push_log(&mut logs, LogStream::Stderr, ms.as_str());
                self.stage = SyncStage::Finished;
                proof {
                    assert(logs_view(logs@) =~= seq![(LogStream::Stderr, log_chunk("Source sync failed: "@ + summary@))]);
                }
                (logs, Some(SyncCommand::MarkFailed(summary)))
            },
            (SyncStage::AwaitingClone, SyncEvent::CloneReset(Ok(path))) => {
                let mut m = chars_of("Source cache ready at ");
                append_str(&mut m, path.as_str());
                let ms = string_of(&m);
                push_log(&mut logs, LogStream::Stdout, ms.as_str());
                match &self.setup_script {
                    Some(script) => {
                        push_log(&mut logs, LogStream::Stdout, "[source setup] running configured setup script");
                        self.stage = SyncStage::AwaitingHook;
                        proof {
                            assert(logs_view(logs@) =~= seq![
                                (LogStream::Stdout, log_chunk("Source cache ready at "@ + path@)),
                                (LogStream::Stdout, log_chunk("[source setup] running configured setup script"@)),
                            ]);
                        }
                        (logs, Some(SyncCommand::RunHook { script: script.clone(), source_path: path }))
                    },
                    None => {
                        push_log(&mut logs, LogStream::Stdout, "Environment source cache sync completed.");
                        self.stage = SyncStage::Finished;
                        proof {
                            assert(logs_view(logs@) =~= seq![
                                (LogStream::Stdout, log_chunk("Source cache ready at "@ + path@)),
                                (LogStream::Stdout, log_chunk("Environment source cache sync completed."@)),
                            ]);
                        }
                        (logs, Some(SyncCommand::MarkReady))
                    },
                }
            },
            (SyncStage::AwaitingHook, SyncEvent::HookFinished(h)) => {
                push_output_lines(&mut logs, LogStream::Stdout, h.stdout.as_str());
                push_output_lines(&mut logs, LogStream::Stderr, h.stderr.as_str());
                let ghost out = logs_view(logs@);
                assert(out =~= output_logs(h.stdout@, h.stderr@));
                self.stage = SyncStage::Finished;
                if h.succeeded() {
                    push_log(&mut logs, LogStream::Stdout, "[source setup] completed successfully");
                    push_log(&mut logs, LogStream::Stdout, "Environment source cache sync completed.");
                    assert(logs_view(logs@) =~= out + seq![
                        (LogStream::Stdout, log_chunk("[source setup] completed successfully"@)),
                        (LogStream::Stdout, log_chunk("Environment source cache sync completed."@)),
                    ]);
                    (logs, Some(SyncCommand::MarkReady))
                } else {
                    let summary = summarize_hook_failure("Source setup script failed", h.stderr.as_str(), h.stdout.as_str());
                    push_log(&mut logs, LogStream::Stderr, summary.as_str());
                    assert(logs_view(logs@) =~= out + seq![(LogStream::Stderr, log_chunk(summary@))]);
                    (logs, Some(SyncCommand::MarkFailed(summary)))
                }
            },
            _ => {
                assert(logs_view(logs@) =~= seq![]);
                (logs, None)
            },
        }
    }
}

impl SourceSync {
    /// Advances the sync by one event. The first step of a sync clears the
    /// environment's earlier log entries; the entries of each step are numbered on
    /// from where the previous step stopped, so that a sync numbers its entries 0,
    /// 1, 2, ... in the order they are written.
    pub fn step(&mut self, event: SyncEvent) -> (r: SyncStep)
        ensures
            ({
                let (stage, logs, command) = Self::step_spec(
                    old(self).stage,
                    old(self).git_ssh_url@,
                    old(self).default_branch@,
                    opt_view(old(self).setup_script),
                    event,
                );
                &&& final(self).stage == stage
                &&& logs_view(r.logs@) == logs
                &&& command_view(r.command) == command
                &&& r.clear_events == (old(self).stage == SyncStage::Begin && event is Started)
                &&& r.sequences@.len() == r.logs@.len()
                &&& forall|k: int|
                    0 <= k < r.sequences@.len() ==> r.sequences@[k] == capped_sequence(old(self).next_sequence + k)
                &&& final(self).next_sequence == capped_sequence(old(self).next_sequence + r.logs@.len())
                &&& final(self).written@ == old(self).written@ + logs
                &&& old(self).wf() ==> final(self).wf()
                &&& old(self).wf() ==> forall|k: int|
                    0 <= k < r.sequences@.len() ==> r.sequences@[k] == capped_sequence(old(self).written@.len() + k)
                &&& final(self).git_ssh_url@ == old(self).git_ssh_url@
                &&& final(self).default_branch@ == old(self).default_branch@
                &&& opt_view(final(self).setup_script) == opt_view(old(self).setup_script)
            }),
    {
        let clear_events = self.stage == SyncStage::Begin && matches!(event, SyncEvent::Started);
        let ghost event_v = event;
        let (logs, command) = self.advance(event);
        let first = self.next_sequence;
        let mut next = first;
        let mut sequences: Vec<i64> = Vec::new();
        let mut i: usize = 0;
        while i < logs.len()
            invariant
                i <= logs.len(),
                sequences@.len() == i,
                next == capped_sequence(first + i),
                forall|k: int| 0 <= k < i ==> sequences@[k] == capped_sequence(first + k),
            decreases logs.len() - i,
        {
            sequences.push(next);
            if next < i64::MAX {
                next = next + 1;
            }
            i = i + 1;
        }
        self.next_sequence = next;
        let ghost before = self.written@;
        self.written = Ghost(before + logs_view(logs@));
        proof {
            lemma_step_logs_end_with_newline(
                old(self).stage,
                old(self).git_ssh_url@,
                old(self).default_branch@,
                opt_view(old(self).setup_script),
                event_v,
            );
            lemma_sync_moves_forward(
                old(self).stage,
                old(self).git_ssh_url@,
                old(self).default_branch@,
                opt_view(old(self).setup_script),
                event_v,
            );
            if old(self).wf() {
                assert forall|k: int| 0 <= k < sequences@.len() implies sequences@[k] == capped_sequence(
                    before.len() + k,
                ) by {
                    lemma_sequences_run_on(0, before.len(), k);
                }
                lemma_sequences_run_on(0, before.len(), logs@.len() as int);
                assert forall|i: int| 0 <= i < self.written@.len() implies ends_with_newline(
                    #[trigger] self.written@[i].1,
                ) by {
                    if i >= before.len() {
                        assert(self.written@[i] == logs_view(logs@)[i - before.len()]);
                    } else {
                        assert(self.written@[i] == before[i]);
                    }
                }
                if before.len() == 0 && logs@.len() > 0 {
                    assert(self.written@[0] == logs_view(logs@)[0]);
                } else if before.len() > 0 {
                    assert(self.written@[0] == before[0]);
                }
            }
        }
        SyncStep { clear_events, logs, sequences, command }
    }
}

// ---------------------------------------------------------------------------
// Creating, editing and deleting environments
// ---------------------------------------------------------------------------

/// Why a change to an environment was refused.
#[derive(Debug, Clone, Copy, PartialEq, Eq, Structural)]
pub enum EnvironmentError {
    NotFound,
    SlugTaken,
    InUse,
    SyncInProgress,
}

pub open spec fn environment_error_text(e: EnvironmentError) -> Seq<char> {
    match e {
        EnvironmentError::NotFound => "environment not found"@,
        EnvironmentError::SlugTaken => "environment slug already exists"@,
        EnvironmentError::InUse => "environment cannot be deleted because tasks already reference it"@,
        EnvironmentError::SyncInProgress => "environment source sync already in progress"@,
    }
}

impl EnvironmentError {
    /// The text of the refusal.
    pub fn message(&self) -> (r: String)
        ensures
            r@ == environment_error_text(*self),
    {
        match self {
            EnvironmentError::NotFound => "environment not found".to_string(),
            EnvironmentError::SlugTaken => "environment slug already exists".to_string(),
            EnvironmentError::InUse => "environment cannot be deleted because tasks already reference it".to_string(),
            EnvironmentError::SyncInProgress => "environment source sync already in progress".to_string(),
        }
    }
}

/// What is stored for an environment that a user creates or edits.
#[derive(Debug)]
pub struct EnvironmentRecord {
    pub name: String,
    pub slug: String,
    pub git_ssh_url: String,
    pub default_branch: String,
    /// The aliases as a JSON array.
    pub aliases: String,
    pub enabled: bool,
    pub source_setup_script: Option<String>,
    pub workspace_setup_script: Option<String>,
}

/// The record stored for user input: the fields as given, the aliases as JSON,
/// enabled unless the input says otherwise, and the setup scripts trimmed, none
/// when blank.
pub fn environment_record(input: &CreateEnvironmentInput) -> (r: EnvironmentRecord)
    ensures
        r.name@ == input.name@,
        r.slug@ == input.slug@,
        r.git_ssh_url@ == input.git_ssh_url@,
        r.default_branch@ == input.default_branch@,
        r.aliases@ == json_of_string_array(strings_view(input.aliases@)),
        r.enabled == (match input.enabled {
            Some(b) => b,
            None => true,
        }),
        opt_view(r.source_setup_script) == normalized_script(opt_view(input.source_setup_script)),
        opt_view(r.workspace_setup_script) == normalized_script(opt_view(input.workspace_setup_script)),
{
    let aliases = to_json_string_array(&input.aliases);
    record_with_aliases(input, aliases)
}

/// The record stored for user input once its aliases were written as JSON: the
/// fields as given, the aliases' JSON text, enabled unless the input says
/// otherwise, and the setup scripts trimmed, none when blank.
pub fn record_with_aliases(input: &CreateEnvironmentInput, aliases: String) -> (r: EnvironmentRecord)
    ensures
        r.name@ == input.name@,
        r.slug@ == input.slug@,
        r.git_ssh_url@ == input.git_ssh_url@,
        r.default_branch@ == input.default_branch@,
        r.aliases@ == aliases@,
        r.enabled == (match input.enabled {
            Some(b) => b,
            None => true,
        }),
        opt_view(r.source_setup_script) == normalized_script(opt_view(input.source_setup_script)),
        opt_view(r.workspace_setup_script) == normalized_script(opt_view(input.workspace_setup_script)),
{
    let source_setup_script = match &input.source_setup_script {
        Some(s) => normalize_script(Some(s.as_str())),
        None => None,
    };
    let workspace_setup_script = match &input.workspace_setup_script {
        Some(s) => normalize_script(Some(s.as_str())),
        None => None,
    };
    EnvironmentRecord {
        name: input.name.clone(),
        slug: input.slug.clone(),
        git_ssh_url: input.git_ssh_url.clone(),
        default_branch: input.default_branch.clone(),
        aliases,
        enabled: match input.enabled {
            Some(b) => b,
            None => true,
        },
        source_setup_script,
        workspace_setup_script,
    }
}

/// Whether an environment may be created or edited, checked in order: the edited
/// environment must exist (`NotFound`), then no other environment may hold the
/// requested slug (`SlugTaken`). A creation has no environment to find, so it
/// passes `true` for `target_found`. The remote check comes after.
pub fn check_environment_change(target_found: bool, slug_taken: bool) -> (r: Result<(), EnvironmentError>)
    ensures
        !target_found ==> r == Err::<(), EnvironmentError>(EnvironmentError::NotFound),
        target_found && slug_taken ==> r == Err::<(), EnvironmentError>(EnvironmentError::SlugTaken),
        target_found && !slug_taken ==> r is Ok,
{
    if !target_found {
        Err(EnvironmentError::NotFound)
    } else if slug_taken {
        Err(EnvironmentError::SlugTaken)
    } else {
        Ok(())
    }
}

/// An environment can be deleted only while no session references it.
pub fn check_deletable(session_count: i64) -> (r: Result<(), EnvironmentError>)
    ensures
        r is Ok <==> session_count <= 0,
        r is Err ==> r == Err::<(), EnvironmentError>(EnvironmentError::InUse),
{
    if session_count > 0 {
        Err(EnvironmentError::InUse)
    } else {
        Ok(())
    }
}

/// A source sync can be started only while none is running.
pub fn check_refreshable(environment: &Environment) -> (r: Result<(), EnvironmentError>)
    ensures
        r is Ok <==> environment.source_sync_status@ != "syncing"@,
        r is Err ==> r == Err::<(), EnvironmentError>(EnvironmentError::SyncInProgress),
{
    if str_eq(environment.source_sync_status.as_str(), "syncing") {
        Err(EnvironmentError::SyncInProgress)
    } else {
        Ok(())
    }
}

/// The error of a refused `git ls-remote`: its standard error after a prefix.
pub fn remote_access_error(stderr: &str) -> (r: String)
    ensures
        r@ == "git ls-remote failed: "@ + stderr@,
{
    let mut v = chars_of("git ls-remote failed: ");
    append_str(&mut v, stderr);
    string_of(&v)
}

/// The numbering runs on across steps: numbering the entries of one step from
/// `start`, and those of the next step from where that stopped, gives the `k`-th
/// entry of the second step the number of its position in the whole run.
pub proof fn lemma_sequences_run_on(start: int, first_len: nat, k: int)
    requires
        0 <= start,
        0 <= k,
    ensures
        capped_sequence(capped_sequence(start + first_len) + k) == capped_sequence(start + first_len + k),
{
}

impl SourceSync {
    /// What holds of a sync all along: the next sequence number is the number of
    /// entries handed out so far; nothing is handed out before the sync begins and
    /// something is from then on; the first entry says that the sync starts; every
    /// entry ends with a newline.
    pub open spec fn wf(&self) -> bool {
        &&& self.next_sequence == capped_sequence(self.written@.len() as int)
        &&& (self.stage == SyncStage::Begin) == (self.written@.len() == 0)
        &&& self.written@.len() > 0 ==> self.written@[0] == (
            LogStream::Stdout,
            log_chunk("Starting source cache sync..."@),
        )
        &&& forall|i: int| 0 <= i < self.written@.len() ==> ends_with_newline(#[trigger] self.written@[i].1)
    }
}

/// Every log entry of a step ends with a newline, and a step from the start that
/// logs anything begins with the entry that says the sync starts.
pub proof fn lemma_step_logs_end_with_newline(
    stage: SyncStage,
    url: Seq<char>,
    branch: Seq<char>,
    script: Option<Seq<char>>,
    event: SyncEvent,
)
    ensures
        ({
            let (next, logs, command) = SourceSync::step_spec(stage, url, branch, script, event);
            &&& forall|i: int| 0 <= i < logs.len() ==> ends_with_newline(#[trigger] logs[i].1)
            &&& stage == SyncStage::Begin && logs.len() > 0 ==> logs[0] == (
                LogStream::Stdout,
                log_chunk("Starting source cache sync..."@),
            )
        }),
{
    let (next, logs, command) = SourceSync::step_spec(stage, url, branch, script, event);
    assert forall|i: int| 0 <= i < logs.len() implies ends_with_newline(#[trigger] logs[i].1) by {
        match (stage, event) {
            (SyncStage::AwaitingHook, SyncEvent::HookFinished(h)) => {
                let o = lines(h.stdout@).map_values(|l: Seq<char>| (LogStream::Stdout, log_chunk(l)));
                let e = lines(h.stderr@).map_values(|l: Seq<char>| (LogStream::Stderr, log_chunk(l)));
                let out = output_logs(h.stdout@, h.stderr@);
                assert(out == o + e);
                if i < o.len() {
                    assert(logs[i] == o[i]);
                    lemma_log_chunk_ends_with_newline(lines(h.stdout@)[i]);
                } else if i < out.len() {
                    assert(logs[i] == e[i - o.len()]);
                    lemma_log_chunk_ends_with_newline(lines(h.stderr@)[i - o.len()]);
                }
            },
            _ => {},
        }
    }
}

/// How far a sync has come.
pub open spec fn stage_rank(stage: SyncStage) -> int {
    match stage {
        SyncStage::Begin => 0,
        SyncStage::AwaitingClone => 1,
        SyncStage::AwaitingHook => 2,
        SyncStage::Finished => 3,
    }
}

/// A sync only moves forward: every step keeps its stage or advances it, a step
/// that keeps the stage logs nothing and asks for nothing, and a finished sync stays
/// finished and silent. A step that finishes the sync always records its outcome,
/// ready or failed.
pub proof fn lemma_sync_moves_forward(
    stage: SyncStage,
    url: Seq<char>,
    branch: Seq<char>,
    script: Option<Seq<char>>,
    event: SyncEvent,
)
    ensures
        ({
            let (next, logs, command) = SourceSync::step_spec(stage, url, branch, script, event);
            &&& stage_rank(next) >= stage_rank(stage)
            &&& next == stage ==> logs.len() == 0 && command is None
            &&& stage == SyncStage::Finished ==> next == SyncStage::Finished && command is None
            &&& next == SyncStage::Finished && stage != SyncStage::Finished ==> (command matches Some(
                SyncCommandView::MarkReady,
            ) || command matches Some(SyncCommandView::MarkFailed(_)))
        }),
{
}

} // verus!
