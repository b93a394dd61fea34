//! Workspace paths, setup-script results and the reading of `git status` output.
use vstd::prelude::*;
use std::sync::Arc;
use vstd::string::StringSliceAdditionalSpecFns;
use crate::config::{join_path, path_join, Config};
use crate::text::{
    append_slice, append_str, strings_view, chars_eq, chars_of, find_chars_from, join, join_vecs, matches_at, slice_to_vec,
    split_char, split_on_char, string_of, trim, trim_vec, vecs_view,
};

verus! {

/// A workspace that was found or created for a session.
#[derive(Debug)]
pub struct PreparedWorkspace {
    pub workspace_id: String,
    pub workspace_path: String,
    pub created: bool,
}

/// What a setup script produced.
#[derive(Debug)]
pub struct HookRunResult {
    pub stdout: String,
    pub stderr: String,
    pub exit_code: Option<i64>,
    pub timed_out: bool,
}

impl HookRunResult {
    /// A script succeeded when it finished in time with exit code 0.
    pub fn succeeded(&self) -> (r: bool)
        ensures
            r == (!self.timed_out && self.exit_code == Some(0i64)),
    {
        !self.timed_out && match self.exit_code {
            Some(c) => c == 0,
            None => false,
        }
    }
}

/// The changes in a workspace, as shown to users.
#[derive(Debug)]
pub struct WorkspaceGitDiff {
    pub available: bool,
    pub reason: Option<String>,
    pub files: Vec<WorkspaceGitDiffFile>,
}

/// One changed file of a workspace.
#[derive(Debug)]
pub struct WorkspaceGitDiffFile {
    pub path: String,
    pub status: String,
    pub staged: bool,
    pub can_stage: bool,
    pub diff: String,
}

/// Where the source clones and workspaces of a configuration live.
pub struct WorkspaceManager {
    config: Arc<Config>,
}

impl WorkspaceManager {
    /// The directory of source clones.
    pub closed spec fn sources_dir(&self) -> Seq<char> {
        self.config.paths.sources_dir@
    }

    /// The directory of workspaces.
    pub closed spec fn workspaces_dir(&self) -> Seq<char> {
        self.config.paths.workspaces_dir@
    }

    /// A manager for the given configuration.
    pub fn new(config: Arc<Config>) -> (r: Self)
        ensures
            r.sources_dir() == config.paths.sources_dir@,
            r.workspaces_dir() == config.paths.workspaces_dir@,
    {
        WorkspaceManager { config }
    }

    /// The source clone of an environment.
    pub fn source_path(&self, env_slug: &str) -> (r: String)
        ensures
            r@ == path_join(self.sources_dir(), env_slug@),
    {
        join_path(self.config.paths.sources_dir.as_str(), env_slug)
    }

    /// The workspace of a session in an environment.
    pub fn environment_workspace_path(&self, env_slug: &str, workspace_id: &str) -> (r: String)
        ensures
            r@ == path_join(path_join(self.workspaces_dir(), env_slug@), workspace_id@),
    {
        let d = join_path(self.config.paths.workspaces_dir.as_str(), env_slug);
        join_path(d.as_str(), workspace_id)
    }

    /// The workspace of a session without an environment.
    pub fn general_workspace_path(&self, workspace_id: &str) -> (r: String)
        ensures
            r@ == path_join(path_join(self.workspaces_dir(), "general"@), workspace_id@),
    {
        let d = join_path(self.config.paths.workspaces_dir.as_str(), "general");
        join_path(d.as_str(), workspace_id)
    }

    /// The setup-script time limit, in seconds.
    pub closed spec fn hook_timeout(&self) -> u64 {
        self.config.hooks.timeout_seconds
    }

    /// The setup-script time limit, in seconds.
    pub fn hook_timeout_seconds(&self) -> (r: u64)
        ensures
            r == self.hook_timeout(),
    {
        self.config.hooks.timeout_seconds
    }
}

/// The result a setup script has when it is blank and so is not run.
pub fn skipped_hook_result() -> (r: HookRunResult)
    ensures
        r.succeeded_spec(),
        r.stdout@.len() == 0,
        r.stderr@.len() == 0,
{
    HookRunResult { stdout: String::new(), stderr: String::new(), exit_code: Some(0), timed_out: false }
}

impl HookRunResult {
    /// Whether the script finished in time with exit code 0.
    pub open spec fn succeeded_spec(&self) -> bool {
        !self.timed_out && self.exit_code == Some(0i64)
    }
}

// ---------------------------------------------------------------------------
// Relative paths of workspace files
// ---------------------------------------------------------------------------

/// Why a workspace file path was refused.
#[derive(Debug, Clone, Copy, PartialEq, Eq, Structural)]
pub enum WorkspacePathError {
    Absolute,
    ParentTraversal,
    Empty,
}

impl WorkspacePathError {
    /// The error's message.
    pub fn message(&self) -> (r: &'static str)
        ensures
            r@ == (match self {
                WorkspacePathError::Absolute => "workspace file path must be relative"@,
                WorkspacePathError::ParentTraversal => "workspace file path cannot traverse parent directories"@,
                WorkspacePathError::Empty => "workspace file path cannot be empty"@,
            }),
    {
        match self {
            WorkspacePathError::Absolute => "workspace file path must be relative",
            WorkspacePathError::ParentTraversal => "workspace file path cannot traverse parent directories",
            WorkspacePathError::Empty => "workspace file path cannot be empty",
        }
    }
}

/// A path component that names a file or directory (not empty and not `.`).
pub open spec fn is_named_component(c: Seq<char>) -> bool {
    c.len() > 0 && c != seq!['.']
}

/// The path's named components, in order.
pub open spec fn named_components(p: Seq<char>) -> Seq<Seq<char>> {
    split_char(p, '/').filter(|c: Seq<char>| is_named_component(c))
}

/// How a workspace file path is read: an absolute path is refused, a `..` component
/// is refused, and otherwise the path is its named components joined by `/`, which
/// must not be empty.
pub open spec fn sanitized_path(p: Seq<char>) -> Result<Seq<char>, WorkspacePathError> {
    if p.len() > 0 && p[0] == '/' {
        Err(WorkspacePathError::Absolute)
    } else if split_char(p, '/').contains(seq!['.', '.']) {
        Err(WorkspacePathError::ParentTraversal)
    } else if named_components(p).len() == 0 {
        Err(WorkspacePathError::Empty)
    } else {
        Ok(join(named_components(p), seq!['/']))
    }
}

/// Checks a workspace file path and gives it in clean relative form.
pub fn sanitize_workspace_relative_path(file_path: &str) -> (r: Result<String, WorkspacePathError>)
    ensures
        match r {
            Ok(s) => sanitized_path(file_path@) == Ok::<Seq<char>, WorkspacePathError>(s@),
            Err(e) => sanitized_path(file_path@) == Err::<Seq<char>, WorkspacePathError>(e),
        },
{
    let p = chars_of(file_path);
    if p.len() > 0 && p[0] == '/' {
        return Err(WorkspacePathError::Absolute);
    }
    let parts = split_on_char(&p, '/');
    let ghost pv = vecs_view(parts@);
    let mut named: Vec<Vec<char>> = Vec::new();
    let mut i: usize = 0;
    assert(pv.take(0).filter(|c: Seq<char>| is_named_component(c)) =~= seq![]);
    while i < parts.len()
        invariant
            i <= parts.len(),
            pv == vecs_view(parts@),
            pv == split_char(p@, '/'),
            p@ == file_path@,
            !(p@.len() > 0 && p@[0] == '/'),
            !pv.take(i as int).contains(seq!['.', '.']),
            vecs_view(named@) == pv.take(i as int).filter(|c: Seq<char>| is_named_component(c)),
        decreases parts.len() - i,
    {
        let part = &parts[i];
        assert(pv[i as int] == part@);
        let is_parent = part.len() == 2 && part[0] == '.' && part[1] == '.';
        let is_cur = part.len() == 1 && part[0] == '.';
        proof {
            assert(pv.take(i + 1).drop_last() =~= pv.take(i as int));
            assert(pv.take(i + 1).last() == part@);
            if part@.len() == 2 {
                assert(is_parent == (part@ =~= seq!['.', '.']));
            }
            if part@.len() == 1 {
                assert(is_cur == (part@ =~= seq!['.']));
            }
            reveal_with_fuel(Seq::filter, 1);
        }
        if is_parent {
            proof {
                assert(part@ =~= seq!['.', '.']);
                assert(pv.contains(seq!['.', '.'])) by {
                    assert(pv[i as int] == seq!['.', '.']);
                }
            }
            return Err(WorkspacePathError::ParentTraversal);
        }
        if part.len() > 0 && !is_cur {
            let ghost before = vecs_view(named@);
            let c = slice_to_vec(part.as_slice(), 0, part.len());
            assert(part@.subrange(0, part@.len() as int) =~= part@);
            named.push(c);
            assert(vecs_view(named@) =~= before.push(part@));
        }
        proof {
            assert(!pv.take(i + 1).contains(seq!['.', '.'])) by {
                if pv.take(i + 1).contains(seq!['.', '.']) {
                    let k = choose|k: int| 0 <= k < i + 1 && #[trigger] pv.take(i + 1)[k] == seq!['.', '.'];
                    if k < i {
                        assert(pv.take(i as int)[k] == seq!['.', '.']);
                    } else {
                        assert(part@ == seq!['.', '.']);
                        assert(part@.len() == 2 && part@[0] == '.' && part@[1] == '.');
                    }
                }
            }
        }
        i = i + 1;
    }
    assert(pv.take(parts.len() as int) =~= pv);
    if named.len() == 0 {
        return Err(WorkspacePathError::Empty);
    }
    let sep = vec!['/'];
    assert(sep@ =~= seq!['/']);
    let joined = join_vecs(&named, &sep);
    Ok(string_of(&joined))
}

// ---------------------------------------------------------------------------
// `git status --porcelain=v1` lines
// ---------------------------------------------------------------------------

/// The last position where `p` occurs in `s`, at or before `at`.
pub open spec fn rfind_from(s: Seq<char>, p: Seq<char>, at: int) -> Option<int>
    decreases at + 1,
{
    if at < 0 {
        None
    } else if matches_at(s, p, at) {
        Some(at)
    } else {
        rfind_from(s, p, at - 1)
    }
}

/// `s` without every leading and trailing `c` (`str::trim_matches` with a `char`).
pub open spec fn trim_char(s: Seq<char>, c: char) -> Seq<char>
    decreases s.len(),
{
    if s.len() > 0 && s[0] == c {
        trim_char(s.drop_first(), c)
    } else if s.len() > 0 && s.last() == c {
        trim_char(s.drop_last(), c)
    } else {
        s
    }
}

/// The path named by the path part of a status line: for a rename `old -> new` the
/// new path, trimmed, without surrounding quotes.
pub open spec fn status_path(raw: Seq<char>) -> Seq<char> {
    let arrow = " -> "@;
    let after = match rfind_from(raw, arrow, raw.len() - arrow.len()) {
        Some(i) => raw.subrange(i + arrow.len(), raw.len() as int),
        None => raw,
    };
    trim_char(trim(after), '"')
}

/// Strips every leading and trailing `c`.
pub fn trim_char_vec(s: &[char], c: char) -> (r: Vec<char>)
    ensures
        r@ == trim_char(s@, c),
{
    let mut a: usize = 0;
    let mut b: usize = s.len();
    assert(s@.subrange(0, s@.len() as int) =~= s@);
    while a < b && (s[a] == c || s[b - 1] == c)
        invariant
            a <= b <= s@.len(),
            trim_char(s@, c) == trim_char(s@.subrange(a as int, b as int), c),
        decreases b - a,
    {
        let ghost t = s@.subrange(a as int, b as int);
        if s[a] == c {
            assert(t.drop_first() =~= s@.subrange(a + 1, b as int));
            a = a + 1;
        } else {
            assert(t.last() == s@[b - 1]);
            assert(t.drop_last() =~= s@.subrange(a as int, b - 1));
            b = b - 1;
        }
    }
    slice_to_vec(s, a, b)
}

/// The last position where `p` occurs in `s`.
pub fn rfind_chars(s: &[char], p: &[char]) -> (r: Option<usize>)
    ensures
        match r {
            Some(i) => rfind_from(s@, p@, s@.len() - p@.len()) == Some(i as int) && i + p@.len() <= s@.len(),
            None => rfind_from(s@, p@, s@.len() - p@.len()) is None,
        },
{
    if p.len() > s.len() {
        proof {
            assert(rfind_from(s@, p@, s@.len() - p@.len()) is None) by {
                let at = s@.len() - p@.len();
                assert(at < 0);
            }
        }
        return None;
    }
    let mut k: usize = s.len() - p.len();
    loop
        invariant
            k <= s@.len() - p@.len(),
            p@.len() <= s@.len(),
            rfind_from(s@, p@, s@.len() - p@.len()) == rfind_from(s@, p@, k as int),
        decreases k,
    {
        if crate::text::match_at(s, p, k) {
            return Some(k);
        }
        if k == 0 {
            assert(rfind_from(s@, p@, -1) is None);
            return None;
        }
        k = k - 1;
    }
}

/// Reads the path part of a status line.
pub fn parse_status_path(raw_path: &str) -> (r: String)
    ensures
        r@ == status_path(raw_path@),
{
    let raw = chars_of(raw_path);
    let arrow = chars_of(" -> ");
    proof {
        reveal_strlit(" -> ");
    }
    let found = rfind_chars(&raw, &arrow);
    let after = match found {
        Some(i) => {
            let al = arrow.len();
            assert(i + al <= raw.len());
            let st = i + al;
            slice_to_vec(&raw, st, raw.len())
        },
        None => slice_to_vec(&raw, 0, raw.len()),
    };
    assert(raw@.subrange(0, raw@.len() as int) =~= raw@);
    let t = trim_vec(&after);
    let q = trim_char_vec(&t, '"');
    string_of(&q)
}

/// The status word for the index and work-tree status letters of a status line.
pub open spec fn git_status_word(index: char, worktree: char) -> Seq<char> {
    if index == '?' && worktree == '?' {
        "untracked"@
    } else if index == 'A' || worktree == 'A' {
        "added"@
    } else if index == 'D' || worktree == 'D' {
        "deleted"@
    } else if index == 'R' || worktree == 'R' {
        "renamed"@
    } else if index == 'C' || worktree == 'C' {
        "copied"@
    } else if index == 'U' || worktree == 'U' {
        "conflicted"@
    } else if index == 'T' || worktree == 'T' {
        "type changed"@
    } else if index == 'M' || worktree == 'M' {
        "modified"@
    } else {
        "changed"@
    }
}

/// Describes the status letters of a status line.
pub fn describe_git_status(index_status: char, worktree_status: char) -> (r: &'static str)
    ensures
        r@ == git_status_word(index_status, worktree_status),
{
    if index_status == '?' && worktree_status == '?' {
        "untracked"
    } else if index_status == 'A' || worktree_status == 'A' {
        "added"
    } else if index_status == 'D' || worktree_status == 'D' {
        "deleted"
    } else if index_status == 'R' || worktree_status == 'R' {
        "renamed"
    } else if index_status == 'C' || worktree_status == 'C' {
        "copied"
    } else if index_status == 'U' || worktree_status == 'U' {
        "conflicted"
    } else if index_status == 'T' || worktree_status == 'T' {
        "type changed"
    } else if index_status == 'M' || worktree_status == 'M' {
        "modified"
    } else {
        "changed"
    }
}

/// One entry of `git status --porcelain=v1`, before its diff is read.
#[derive(Debug)]
pub struct StatusEntry {
    pub path: String,
    pub status: String,
    pub staged: bool,
    pub can_stage: bool,
    /// Untracked files are diffed against `/dev/null`; others against `HEAD`.
    pub untracked: bool,
}

/// The text whose UTF-8 encoding is the given bytes.
pub open spec fn decoded(bytes: Seq<u8>) -> Seq<char> {
    vstd::utf8::decode_utf8(bytes)
}

/// What a status line says, read as bytes: lines shorter than four bytes and ignored
/// files (`!!`) give nothing; otherwise the first two bytes are the index and
/// work-tree letters and the text from byte 3 on names the path.
pub open spec fn status_entry_of(bytes: Seq<u8>) -> Option<(Seq<char>, Seq<char>, bool, bool, bool)> {
    if bytes.len() < 4 {
        None
    } else {
        let x = bytes[0] as char;
        let y = bytes[1] as char;
        if x == '!' && y == '!' {
            None
        } else {
            Some(
                (
                    status_path(trim(decoded(bytes.subrange(3, bytes.len() as int)))),
                    git_status_word(x, y),
                    x != ' ' && x != '?',
                    y != ' ' || (x == '?' && y == '?'),
                    x == '?' && y == '?',
                ),
            )
        }
    }
}

/// Reads one line of `git status --porcelain=v1`.
pub fn parse_status_line(line: &str) -> (r: Option<StatusEntry>)
    requires
        line.spec_bytes().len() < 4 || vstd::utf8::is_char_boundary(line.spec_bytes(), 3),
    ensures
        match r {
            Some(e) => status_entry_of(line.spec_bytes()) == Some((e.path@, e.status@, e.staged, e.can_stage, e.untracked)),
            None => status_entry_of(line.spec_bytes()) is None,
        },
{
    let bytes = line.as_bytes();
    if bytes.len() < 4 {
        return None;
    }
    let x = bytes[0] as char;
    let y = bytes[1] as char;
    if x == '!' && y == '!' {
        return None;
    }
    let (_, rest) = line.split_at(3);
    proof {
        broadcast use vstd::utf8::encode_utf8_decode_utf8;
        assert(rest.spec_bytes() =~= line.spec_bytes().subrange(3, line.spec_bytes().len() as int));
        assert(decoded(rest.spec_bytes()) == rest@);
    }
    let t = crate::text::trim_string(rest);
    let path = parse_status_path(t.as_str());
    let status = describe_git_status(x, y);
    Some(
        StatusEntry {
            path,
            status: status.to_owned(),
            staged: x != ' ' && x != '?',
            can_stage: y != ' ' || (x == '?' && y == '?'),
            untracked: x == '?' && y == '?',
        },
    )
}

// ---------------------------------------------------------------------------
// Git command lines
// ---------------------------------------------------------------------------

fn push_arg(args: &mut Vec<String>, a: &str)
    ensures
        strings_view(final(args)@) == strings_view(old(args)@).push(a@),
{
    let ghost before = strings_view(args@);
    args.push(a.to_string());
    assert(strings_view(args@) =~= before.push(a@));
}

/// The git commands that bring an existing source clone to the tip of its branch:
/// fetch the branch shallowly, reset and clean, check the branch out at the remote
/// tip, reset to it, and clean again.
pub open spec fn refresh_steps(branch: Seq<char>) -> Seq<Seq<Seq<char>>> {
    seq![
        seq!["fetch"@, "--depth"@, "1"@, "--prune"@, "origin"@, branch],
        seq!["reset"@, "--hard"@, "HEAD"@],
        seq!["clean"@, "-fdx"@],
        seq!["checkout"@, "-B"@, branch, "origin/"@ + branch],
        seq!["reset"@, "--hard"@, "origin/"@ + branch],
        seq!["clean"@, "-fdx"@],
    ]
}

/// The git commands that refresh an existing source clone of the branch.
pub fn source_refresh_steps(default_branch: &str) -> (r: Vec<Vec<String>>)
    ensures
        r@.map_values(|a: Vec<String>| strings_view(a@)) == refresh_steps(default_branch@),
{
    let mut remote = chars_of("origin/");
    append_str(&mut remote, default_branch);
    let remote = string_of(&remote);
    let mut fetch: Vec<String> = Vec::new();
    push_arg(&mut fetch, "fetch");
    push_arg(&mut fetch, "--depth");
    push_arg(&mut fetch, "1");
    push_arg(&mut fetch, "--prune");
    push_arg(&mut fetch, "origin");
    push_arg(&mut fetch, default_branch);
    let mut reset_head: Vec<String> = Vec::new();
    push_arg(&mut reset_head, "reset");
    push_arg(&mut reset_head, "--hard");
    push_arg(&mut reset_head, "HEAD");
    let mut clean: Vec<String> = Vec::new();
    push_arg(&mut clean, "clean");
    push_arg(&mut clean, "-fdx");
    let mut checkout: Vec<String> = Vec::new();
    push_arg(&mut checkout, "checkout");
    push_arg(&mut checkout, "-B");
    push_arg(&mut checkout, default_branch);
    push_arg(&mut checkout, remote.as_str());
    let mut reset_remote: Vec<String> = Vec::new();
    push_arg(&mut reset_remote, "reset");
    push_arg(&mut reset_remote, "--hard");
    push_arg(&mut reset_remote, remote.as_str());
    let mut clean_again: Vec<String> = Vec::new();
    push_arg(&mut clean_again, "clean");
    push_arg(&mut clean_again, "-fdx");
    assert(strings_view(fetch@) =~= seq!["fetch"@, "--depth"@, "1"@, "--prune"@, "origin"@, default_branch@]);
    assert(strings_view(reset_head@) =~= seq!["reset"@, "--hard"@, "HEAD"@]);
    assert(strings_view(clean@) =~= seq!["clean"@, "-fdx"@]);
    assert(strings_view(checkout@) =~= seq!["checkout"@, "-B"@, default_branch@, "origin/"@ + default_branch@]);
    assert(strings_view(reset_remote@) =~= seq!["reset"@, "--hard"@, "origin/"@ + default_branch@]);
    assert(strings_view(clean_again@) =~= seq!["clean"@, "-fdx"@]);
    let ghost views = seq![
        strings_view(fetch@),
        strings_view(reset_head@),
        strings_view(clean@),
        strings_view(checkout@),
        strings_view(reset_remote@),
        strings_view(clean_again@),
    ];
    assert(views =~= refresh_steps(default_branch@));
    let mut steps: Vec<Vec<String>> = Vec::new();
    steps.push(fetch);
    steps.push(reset_head);
    steps.push(clean);
    steps.push(checkout);
    steps.push(reset_remote);
    steps.push(clean_again);
    assert(steps@.map_values(|a: Vec<String>| strings_view(a@)) =~= views);
    steps
}

/// The arguments of a shallow, single-branch clone of the repository into `path`.
pub fn source_clone_args(git_ssh_url: &str, default_branch: &str, path: &str) -> (r: Vec<String>)
    ensures
        strings_view(r@) == seq![
            "clone"@,
            "--depth"@,
            "1"@,
            "--branch"@,
            default_branch@,
            "--single-branch"@,
            git_ssh_url@,
            path@,
        ],
{
    let mut args: Vec<String> = Vec::new();
    push_arg(&mut args, "clone");
    push_arg(&mut args, "--depth");
    push_arg(&mut args, "1");
    push_arg(&mut args, "--branch");
    push_arg(&mut args, default_branch);
    push_arg(&mut args, "--single-branch");
    push_arg(&mut args, git_ssh_url);
    push_arg(&mut args, path);
    assert(strings_view(args@) =~= seq![
        "clone"@,
        "--depth"@,
        "1"@,
        "--branch"@,
        default_branch@,
        "--single-branch"@,
        git_ssh_url@,
        path@,
    ]);
    args
}

/// The arguments that show the diff of a changed file: an untracked file against
/// `/dev/null`, any other against `HEAD`.
pub fn diff_args(entry: &StatusEntry) -> (r: Vec<String>)
    ensures
        strings_view(r@) == (if entry.untracked {
            seq!["diff"@, "--no-index"@, "--no-ext-diff"@, "--"@, "/dev/null"@, entry.path@]
        } else {
            seq!["diff"@, "--no-ext-diff"@, "HEAD"@, "--"@, entry.path@]
        }),
{
    let mut args: Vec<String> = Vec::new();
    if entry.untracked {
        push_arg(&mut args, "diff");
        push_arg(&mut args, "--no-index");
        push_arg(&mut args, "--no-ext-diff");
        push_arg(&mut args, "--");
        push_arg(&mut args, "/dev/null");
        push_arg(&mut args, entry.path.as_str());
        assert(strings_view(args@) =~= seq!["diff"@, "--no-index"@, "--no-ext-diff"@, "--"@, "/dev/null"@, entry.path@]);
    } else {
        push_arg(&mut args, "diff");
        push_arg(&mut args, "--no-ext-diff");
        push_arg(&mut args, "HEAD");
        push_arg(&mut args, "--");
        push_arg(&mut args, entry.path.as_str());
        assert(strings_view(args@) =~= seq!["diff"@, "--no-ext-diff"@, "HEAD"@, "--"@, entry.path@]);
    }
    args
}

/// Whether a git command's output is used: it succeeded, or exited with one of the
/// codes that the command allows (`git diff --no-index` exits 1 when files differ).
pub fn git_exit_accepted(success: bool, code: Option<i32>, allowed: &[i32]) -> (r: bool)
    ensures
        r == (success || (code is Some && allowed@.contains(code->Some_0))),
{
    if success {
        return true;
    }
    match code {
        Some(c) => {
            let mut i: usize = 0;
            while i < allowed.len()
                invariant
                    i <= allowed.len(),
                    code == Some(c),
                    forall|k: int| 0 <= k < i ==> allowed@[k] != c,
                decreases allowed.len() - i,
            {
                if allowed[i] == c {
                    assert(allowed@[i as int] == c);
                    assert(allowed@.contains(c));
                    return true;
                }
                i = i + 1;
            }
            false
        },
        None => false,
    }
}

/// The error of a failed git command: its standard error after a prefix.
pub fn git_failure(stderr: &str) -> (r: String)
    ensures
        r@ == "git command failed: "@ + stderr@,
{
    let mut v = chars_of("git command failed: ");
    append_str(&mut v, stderr);
    string_of(&v)
}

// ---------------------------------------------------------------------------
// Workspace ids
// ---------------------------------------------------------------------------

/// A lower-case hexadecimal digit.
pub open spec fn is_lower_hex(c: char) -> bool {
    ('0' <= c && c <= '9') || ('a' <= c && c <= 'f')
}

/// Where the hyphenated form of a UUID has its hyphens.
pub open spec fn is_uuid_hyphen_position(i: int) -> bool {
    i == 8 || i == 13 || i == 18 || i == 23
}

/// A random (version 4, RFC 4122 variant) UUID in its hyphenated lower-case form:
/// 36 characters, hyphens at positions 8, 13, 18 and 23, lower-case hex digits
/// elsewhere, the version digit `4` at position 14, and one of `8`, `9`, `a`, `b`
/// (the variant) at position 19.
pub open spec fn is_v4_uuid_text(s: Seq<char>) -> bool {
    &&& s.len() == 36
    &&& forall|i: int|
        0 <= i < 36 ==> if is_uuid_hyphen_position(i) {
            #[trigger] s[i] == '-'
        } else {
            is_lower_hex(s[i])
        }
    &&& s[14] == '4'
    &&& (s[19] == '8' || s[19] == '9' || s[19] == 'a' || s[19] == 'b')
}

/// Calls `uuid::Uuid::new_v4` and formats it with `to_string`. Trusted: the text is
/// the hyphenated lower-case form of a version 4 UUID, whose version and variant
/// bits `new_v4` sets; which UUID comes is random and not stated.
#[verifier::external_body]
pub(crate) fn new_uuid() -> (r: String)
    ensures
        is_v4_uuid_text(r@),
{
    uuid::Uuid::new_v4().to_string()
}

/// The id of a workspace being prepared: the requested one, else a fresh UUID.
pub fn workspace_id_or_new(requested: Option<&str>) -> (r: String)
    ensures
        match requested {
            Some(id) => r@ == id@,
            None => is_v4_uuid_text(r@),
        },
{
    match requested {
        Some(id) => id.to_string(),
        None => new_uuid(),
    }
}

} // verus!
