//! The inputs and outputs of a task run, and how a finished run is summarised.
use vstd::prelude::*;
use crate::config::Config;
use crate::text::{append_str, chars_of, str_is_blank, string_of, strings_view, trim};

verus! {

/// What a task run is given.
#[derive(Debug)]
pub struct RunnerInput {
    pub task_run_id: String,
    pub workspace_path: String,
    pub prompt: String,
    pub timeout_seconds: Option<u64>,
}

/// What a task run produced.
#[derive(Debug)]
pub struct RunnerOutput {
    pub status: String,
    pub exit_code: Option<i64>,
    pub stdout: String,
    pub stderr: String,
}

/// How the process of a task run ended.
pub enum WaitOutcome {
    /// It exited, successfully or not, with its exit code if it had one.
    Exited(bool, Option<i64>),
    /// It ran past its time limit and was stopped.
    TimedOut,
    /// It was cancelled and stopped.
    Cancelled,
}

/// The status text recorded for a run that ended this way.
pub open spec fn outcome_status(outcome: WaitOutcome) -> Seq<char> {
    match outcome {
        WaitOutcome::Exited(true, _) => "succeeded"@,
        WaitOutcome::Exited(false, _) => "failed"@,
        WaitOutcome::TimedOut => "timed_out"@,
        WaitOutcome::Cancelled => "cancelled"@,
    }
}

/// The output recorded for a run: its status from how it ended, its exit code when
/// it exited, and the given output streams.
pub fn runner_output(outcome: WaitOutcome, stdout: String, stderr: String) -> (r: RunnerOutput)
    ensures
        r.status@ == outcome_status(outcome),
        r.exit_code == (match outcome {
            WaitOutcome::Exited(_, code) => code,
            _ => None,
        }),
        r.stdout@ == stdout@,
        r.stderr@ == stderr@,
{
    match outcome {
        WaitOutcome::Exited(success, exit_code) => RunnerOutput {
            status: if success {
                "succeeded".to_owned()
            } else {
                "failed".to_owned()
            },
            exit_code,
            stdout,
            stderr,
        },
        WaitOutcome::TimedOut => RunnerOutput { status: "timed_out".to_owned(), exit_code: None, stdout, stderr },
        WaitOutcome::Cancelled => RunnerOutput { status: "cancelled".to_owned(), exit_code: None, stdout, stderr },
    }
}

/// The final message of a run: the contents of its last-message file when that
/// could be read and is not blank, otherwise its collected standard output.
pub fn choose_last_message(file_contents: Option<String>, fallback: &str) -> (r: String)
    ensures
        r@ == (match file_contents {
            Some(c) => if trim(c@).len() != 0 {
                c@
            } else {
                fallback@
            },
            None => fallback@,
        }),
{
    match file_contents {
        Some(content) => {
            if !str_is_blank(content.as_str()) {
                content
            } else {
                fallback.to_owned()
            }
        },
        None => fallback.to_owned(),
    }
}

/// How the Codex CLI is started for a run.
#[derive(Debug)]
pub struct CodexInvocation {
    pub program: String,
    pub args: Vec<String>,
    pub current_dir: String,
    /// Where Codex writes its last message.
    pub last_message_path: String,
    /// How long the run may take.
    pub timeout_seconds: u64,
}

/// The file a run's last message is written to, inside its workspace.
pub open spec fn last_message_file(workspace_path: Seq<char>, task_run_id: Seq<char>) -> Seq<char> {
    workspace_path + "/.relay-codex-last-message-"@ + task_run_id + ".txt"@
}

/// The arguments of a run: `exec` without the git check, without colour, writing
/// its last message to `path`, then the configured arguments, then the prompt.
pub open spec fn codex_args(path: Seq<char>, default_args: Seq<Seq<char>>, prompt: Seq<char>) -> Seq<Seq<char>> {
    seq!["exec"@, "--skip-git-repo-check"@, "--color"@, "never"@, "-o"@, path] + default_args + seq![prompt]
}

/// How the Codex CLI is started for a run: the configured program with the run's
/// arguments, in the run's workspace, with the run's time limit or else the
/// configured one.
pub fn codex_invocation(config: &Config, input: &RunnerInput) -> (r: CodexInvocation)
    ensures
        r.program@ == config.codex.bin@,
        r.last_message_path@ == last_message_file(input.workspace_path@, input.task_run_id@),
        strings_view(r.args@) == codex_args(
            r.last_message_path@,
            strings_view(config.codex.default_args@),
            input.prompt@,
        ),
        r.current_dir@ == input.workspace_path@,
        r.timeout_seconds == (match input.timeout_seconds {
            Some(t) => t,
            None => config.codex.timeout_seconds,
        }),
{
    let mut p = chars_of(input.workspace_path.as_str());
    append_str(&mut p, "/.relay-codex-last-message-");
    append_str(&mut p, input.task_run_id.as_str());
    append_str(&mut p, ".txt");
    let path = string_of(&p);
    let mut args: Vec<String> = Vec::new();
    args.push("exec".to_string());
    args.push("--skip-git-repo-check".to_string());
    args.push("--color".to_string());
    args.push("never".to_string());
    args.push("-o".to_string());
    args.push(path.clone());
    let ghost head = strings_view(args@);
    assert(head =~= seq!["exec"@, "--skip-git-repo-check"@, "--color"@, "never"@, "-o"@, path@]);
    let defaults = &config.codex.default_args;
    let ghost dv = strings_view(defaults@);
    let mut i: usize = 0;
    while i < defaults.len()
        invariant
            i <= defaults.len(),
            dv == strings_view(defaults@),
            strings_view(args@) == head + dv.take(i as int),
        decreases defaults.len() - i,
    {
        let ghost before = strings_view(args@);
        args.push(defaults[i].clone());
        assert(strings_view(args@) =~= before.push(dv[i as int]));
        assert(dv.take(i + 1) =~= dv.take(i as int).push(dv[i as int]));
        i = i + 1;
    }
    assert(dv.take(defaults.len() as int) =~= dv);
    let ghost body = strings_view(args@);
    args.push(input.prompt.clone());
    assert(strings_view(args@) =~= body.push(input.prompt@));
    let timeout_seconds = match input.timeout_seconds {
        Some(t) => t,
        None => config.codex.timeout_seconds,
    };
    CodexInvocation {
        program: config.codex.bin.clone(),
        args,
        current_dir: input.workspace_path.clone(),
        last_message_path: path,
        timeout_seconds,
    }
}

/// The output collected from the lines a stream produced: each line followed by a
/// newline.
pub open spec fn collected(lines: Seq<Seq<char>>) -> Seq<char>
    decreases lines.len(),
{
    if lines.len() == 0 {
        seq![]
    } else {
        collected(lines.drop_last()) + lines.last() + "\n"@
    }
}

/// Collects the lines a stream produced.
pub fn collect_lines(lines: &Vec<String>) -> (r: String)
    ensures
        r@ == collected(strings_view(lines@)),
{
    let ghost lv = strings_view(lines@);
    let mut out: Vec<char> = Vec::new();
    let mut i: usize = 0;
    while i < lines.len()
        invariant
            i <= lines.len(),
            lv == strings_view(lines@),
            out@ == collected(lv.take(i as int)),
        decreases lines.len() - i,
    {
        append_str(&mut out, lines[i].as_str());
        append_str(&mut out, "\n");
        proof {
            assert(lv.take(i + 1).drop_last() =~= lv.take(i as int));
        }
        i = i + 1;
    }
    assert(lv.take(lines.len() as int) =~= lv);
    string_of(&out)
}

} // verus!
