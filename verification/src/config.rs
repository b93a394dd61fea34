//! Runtime configuration, computed from the process environment.
//!
//! The environment variables, the current directory and the home directory are read
//! by the program and handed to [`Config::from_inputs`], which applies the defaults,
//! parses the numbers and reports the first missing or invalid setting.
use vstd::prelude::*;
use crate::text::{
    append_str, chars_eq, chars_of, is_blank, split_on_char, split_words, string_of, strings_of,
    strings_view, trim, trim_vec, vecs_view, words, split_char, all_ws,
};

verus! {

/// HTTP server settings.
#[derive(Debug)]
pub struct ServerConfig {
    pub host: String,
    pub port: u16,
    pub base_url: String,
    pub portal_base_url: String,
    pub rust_log: String,
}

/// Database settings.
#[derive(Debug)]
pub struct DatabaseConfig {
    pub url: String,
}

/// Slack tokens; empty when unset.
#[derive(Debug)]
pub struct SlackConfig {
    pub bot_token: String,
    pub app_token: String,
}

/// Who may use the bot without the non-master policy. The ids form a set: each
/// named id occurs once, and their order carries no meaning.
#[derive(Debug)]
pub struct AuthorizationConfig {
    pub master_slack_user_ids: Vec<String>,
}

/// How task runs are launched.
#[derive(Debug)]
pub struct CodexConfig {
    pub bin: String,
    pub default_args: Vec<String>,
    pub timeout_seconds: u64,
    pub browser_task_timeout_seconds: u64,
    pub playwright_cli_wrapper: String,
    pub playwright_cli_preflight_timeout_seconds: u64,
}

/// Setup-script settings.
#[derive(Debug)]
pub struct HookConfig {
    pub timeout_seconds: u64,
}

/// Workspace terminal settings.
#[derive(Debug)]
pub struct TerminalConfig {
    pub command: String,
}

/// Where runtime files live.
#[derive(Debug)]
pub struct PathConfig {
    pub relay_home: String,
    pub sources_dir: String,
    pub workspaces_dir: String,
    pub policies_dir: String,
    pub workflows_dir: String,
}

/// The whole configuration.
#[derive(Debug)]
pub struct Config {
    pub server: ServerConfig,
    pub database: DatabaseConfig,
    pub slack: SlackConfig,
    pub authorization: AuthorizationConfig,
    pub codex: CodexConfig,
    pub terminal: TerminalConfig,
    pub hooks: HookConfig,
    pub paths: PathConfig,
}

/// What configuration is computed from: the set environment variables (name and
/// value), the current directory, and the home directory if known.
#[derive(Debug)]
pub struct ConfigInputs {
    pub vars: Vec<(String, String)>,
    pub current_dir: String,
    pub home_dir: Option<String>,
}

/// A setting that is missing or cannot be read.
pub enum ConfigError {
    /// The named variable must be set.
    Missing(String),
    /// The named variable does not hold a valid number of the required size.
    Invalid(String),
}

/// The value of a configuration error.
pub enum ConfigErrorView {
    Missing(Seq<char>),
    Invalid(Seq<char>),
}

impl View for ConfigError {
    type V = ConfigErrorView;

    open spec fn view(&self) -> ConfigErrorView {
        match self {
            ConfigError::Missing(k) => ConfigErrorView::Missing(k@),
            ConfigError::Invalid(k) => ConfigErrorView::Invalid(k@),
        }
    }
}

impl ConfigError {
    /// The error's message.
    pub fn message(&self) -> (r: String)
        ensures
            r@ == (match self@ {
                ConfigErrorView::Missing(k) => k + " must be set in the environment"@,
                ConfigErrorView::Invalid(k) => k + " must be a valid "@ + (if k == "APP_PORT"@ {
                    "u16"@
                } else {
                    "u64"@
                }),
            }),
    {
        match self {
            ConfigError::Missing(k) => {
                let mut v = chars_of(k.as_str());
                append_str(&mut v, " must be set in the environment");
                string_of(&v)
            },
            ConfigError::Invalid(k) => {
                let mut v = chars_of(k.as_str());
                append_str(&mut v, " must be a valid ");
                if crate::text::str_eq(k.as_str(), "APP_PORT") {
                    append_str(&mut v, "u16");
                } else {
                    append_str(&mut v, "u64");
                }
                string_of(&v)
            },
        }
    }
}

// ---------------------------------------------------------------------------
// Paths
// ---------------------------------------------------------------------------

/// `base` joined with `p` as `PathBuf::join` does on Unix: an absolute `p` replaces
/// `base`; otherwise `p` is appended after a `/` unless `base` is empty or already
/// ends with one.
pub open spec fn path_join(base: Seq<char>, p: Seq<char>) -> Seq<char> {
    if p.len() > 0 && p[0] == '/' {
        p
    } else if base.len() == 0 {
        p
    } else if base.last() == '/' {
        base + p
    } else {
        base + seq!['/'] + p
    }
}

/// Joins two paths.
pub fn join_path(base: &str, p: &str) -> (r: String)
    ensures
        r@ == path_join(base@, p@),
{
    let b = chars_of(base);
    let pv = chars_of(p);
    if pv.len() > 0 && pv[0] == '/' {
        return string_of(&pv);
    }
    if b.len() == 0 {
        return string_of(&pv);
    }
    let mut out = b;
    if out[out.len() - 1] != '/' {
        out.push('/');
    }
    let ghost before = out@;
    crate::text::append_slice(&mut out, &pv);
    string_of(&out)
}

// ---------------------------------------------------------------------------
// Numbers
// ---------------------------------------------------------------------------

/// An ASCII decimal digit.
pub open spec fn is_digit(c: char) -> bool {
    '0' <= c && c <= '9'
}

/// The value of a run of decimal digits.
pub open spec fn decimal_value(s: Seq<char>) -> int
    decreases s.len(),
{
    if s.len() == 0 {
        0
    } else {
        decimal_value(s.drop_last()) * 10 + (s.last() as int - '0' as int)
    }
}

/// The text after an optional leading `+`.
pub open spec fn unsigned_digits(s: Seq<char>) -> Seq<char> {
    if s.len() > 0 && s[0] == '+' {
        s.drop_first()
    } else {
        s
    }
}

/// Every character is an ASCII digit.
pub open spec fn all_digits(d: Seq<char>) -> bool {
    forall|i: int| 0 <= i < d.len() ==> is_digit(#[trigger] d[i])
}

/// The number that `str::parse` reads for an unsigned type whose largest value is
/// `max`: an optional `+`, then one or more ASCII digits, with a value of at most `max`.
pub open spec fn parse_unsigned(s: Seq<char>, max: int) -> Option<int> {
    let d = unsigned_digits(s);
    if d.len() > 0 && all_digits(d) && decimal_value(d) <= max {
        Some(decimal_value(d))
    } else {
        None
    }
}

proof fn lemma_decimal_prefix(d: Seq<char>, i: int)
    requires
        0 <= i <= d.len(),
        forall|k: int| 0 <= k < d.len() ==> is_digit(#[trigger] d[k]),
    ensures
        decimal_value(d.take(i)) <= decimal_value(d),
        decimal_value(d.take(i)) >= 0,
    decreases d.len() - i,
{
    if i < d.len() {
        lemma_decimal_prefix(d, i + 1);
        assert(d.take(i + 1).drop_last() =~= d.take(i));
        assert(d.take(i + 1).last() == d[i]);
        assert(is_digit(d[i]));
    } else {
        assert(d.take(i) =~= d);
        lemma_decimal_nonneg(d);
    }
}

proof fn lemma_decimal_nonneg(d: Seq<char>)
    requires
        forall|k: int| 0 <= k < d.len() ==> is_digit(#[trigger] d[k]),
    ensures
        decimal_value(d) >= 0,
    decreases d.len(),
{
    if d.len() > 0 {
        assert(is_digit(d[d.len() - 1]));
        lemma_decimal_nonneg(d.drop_last());
    }
}

/// Parses an unsigned decimal number no larger than `max`.
pub fn parse_bounded(s: &str, max: u64) -> (r: Option<u64>)
    ensures
        match r {
            Some(v) => parse_unsigned(s@, max as int) == Some(v as int),
            None => parse_unsigned(s@, max as int) is None,
        },
{
    let v = chars_of(s);
    let start: usize = if v.len() > 0 && v[0] == '+' {
        1
    } else {
        0
    };
    let ghost d = unsigned_digits(s@);
    assert(d =~= v@.skip(start as int));
    if v.len() == start {
        return None;
    }
    let mut acc: u64 = 0;
    let mut i = start;
    assert(d.take(0) =~= Seq::<char>::empty());
    while i < v.len()
        invariant
            start <= i <= v@.len(),
            d == v@.skip(start as int),
            v@ == s@,
            d == unsigned_digits(s@),
            forall|k: int| 0 <= k < i - start ==> is_digit(#[trigger] d[k]),
            acc as int == decimal_value(d.take(i - start)),
            acc <= max,
        decreases v.len() - i,
    {
        let c = v[i];
        assert(d[i - start] == c);
        if c < '0' || c > '9' {
            assert(!is_digit(d[i - start]));
            assert(!all_digits(d));
            return None;
        }
        let digit: u64 = (c as u32 - '0' as u32) as u64;
        proof {
            assert(d.take(i - start + 1).drop_last() =~= d.take(i - start));
            assert(d.take(i - start + 1).last() == c);
            assert forall|k: int| 0 <= k < i - start + 1 implies is_digit(#[trigger] d[k]) by {
                if k == i - start {
                    assert(d[k] == c);
                }
            }
        }
        let next = match acc.checked_mul(10) {
            Some(m) => m.checked_add(digit),
            None => None,
        };
        match next {
            Some(n) if n <= max => {
                acc = n;
            },
            _ => {
                proof {
                    assert(decimal_value(d.take(i - start + 1)) == acc * 10 + digit);
                    assert(decimal_value(d.take(i - start + 1)) > max);
                    if all_digits(d) {
                        lemma_decimal_prefix(d, i - start + 1);
                    }
                }
                return None;
            },
        }
        i = i + 1;
    }
    assert(d.take(v.len() - start) =~= d);
    Some(acc)
}

// ---------------------------------------------------------------------------
// Variables
// ---------------------------------------------------------------------------

/// The value of the first variable with the given name.
pub open spec fn lookup(vars: Seq<(String, String)>, key: Seq<char>, i: int) -> Option<Seq<char>>
    decreases vars.len() - i,
{
    if i < 0 || i >= vars.len() {
        None
    } else if vars[i].0@ == key {
        Some(vars[i].1@)
    } else {
        lookup(vars, key, i + 1)
    }
}

/// The value of a variable, if set.
pub open spec fn var(inputs: ConfigInputs, key: Seq<char>) -> Option<Seq<char>> {
    lookup(inputs.vars@, key, 0)
}

/// The value of a variable, or `default` when it is unset.
pub open spec fn var_or(inputs: ConfigInputs, key: Seq<char>, default: Seq<char>) -> Seq<char> {
    match var(inputs, key) {
        Some(v) => v,
        None => default,
    }
}

/// The value of a variable when it is set and not blank.
pub open spec fn var_nonblank(inputs: ConfigInputs, key: Seq<char>) -> Option<Seq<char>> {
    match var(inputs, key) {
        Some(v) => if trim(v).len() != 0 {
            Some(v)
        } else {
            None
        },
        None => None,
    }
}

/// Looks a variable up.
pub fn env_var(inputs: &ConfigInputs, key: &str) -> (r: Option<String>)
    ensures
        match r {
            Some(v) => var(*inputs, key@) == Some(v@),
            None => var(*inputs, key@) is None,
        },
{
    let mut i: usize = 0;
    while i < inputs.vars.len()
        invariant
            i <= inputs.vars.len(),
            var(*inputs, key@) == lookup(inputs.vars@, key@, i as int),
        decreases inputs.vars.len() - i,
    {
        if crate::text::str_eq(inputs.vars[i].0.as_str(), key) {
            return Some(inputs.vars[i].1.clone());
        }
        i = i + 1;
    }
    None
}

/// A variable's value, or a default.
pub fn env_or(inputs: &ConfigInputs, key: &str, default: &str) -> (r: String)
    ensures
        r@ == var_or(*inputs, key@, default@),
{
    match env_var(inputs, key) {
        Some(v) => v,
        None => default.to_owned(),
    }
}

/// A variable's value when it is set and not blank.
pub fn env_nonblank(inputs: &ConfigInputs, key: &str) -> (r: Option<String>)
    ensures
        match r {
            Some(v) => var_nonblank(*inputs, key@) == Some(v@),
            None => var_nonblank(*inputs, key@) is None,
        },
{
    match env_var(inputs, key) {
        Some(v) => {
            if crate::text::str_is_blank(v.as_str()) {
                None
            } else {
                Some(v)
            }
        },
        None => None,
    }
}

// ---------------------------------------------------------------------------
// Master users
// ---------------------------------------------------------------------------

/// The ids that a comma-separated list names: its trimmed, non-empty pieces.
pub open spec fn names_id(list: Seq<char>, x: Seq<char>) -> bool {
    x.len() > 0 && exists|j: int| 0 <= j < split_char(list, ',').len() && #[trigger] trim(split_char(list, ',')[j]) == x
}

/// The set of trimmed, non-empty pieces of a comma-separated list, each once; a
/// piece named twice is one id.
pub fn parse_id_list(list: &str) -> (r: Vec<String>)
    ensures
        strings_view(r@).no_duplicates(),
        forall|x: Seq<char>| strings_view(r@).contains(x) <==> names_id(list@, x),
{
    let lv = chars_of(list);
    let pieces = split_on_char(&lv, ',');
    let ghost pv = vecs_view(pieces@);
    let mut out: Vec<Vec<char>> = Vec::new();
    let mut i: usize = 0;
    while i < pieces.len()
        invariant
            i <= pieces.len(),
            pv == vecs_view(pieces@),
            pv == split_char(list@, ','),
            vecs_view(out@).no_duplicates(),
            forall|x: Seq<char>| vecs_view(out@).contains(x) <==> (x.len() > 0 && exists|j: int| 0 <= j < i && #[trigger] trim(pv[j]) == x),
        decreases pieces.len() - i,
    {
        let t = trim_vec(pieces[i].as_slice());
        assert(t@ == trim(pv[i as int]));
        let mut found = false;
        let mut k: usize = 0;
        while k < out.len()
            invariant
                k <= out.len(),
                found == exists|m: int| 0 <= m < k && vecs_view(out@)[m] == t@,
            decreases out.len() - k,
        {
            assert(vecs_view(out@)[k as int] == out@[k as int]@);
            if chars_eq(out[k].as_slice(), t.as_slice()) {
                found = true;
            }
            k = k + 1;
        }
        let ghost before = vecs_view(out@);
        if t.len() > 0 && !found {
            let ghost tv = t@;
            out.push(t);
            proof {
                assert(vecs_view(out@) =~= before.push(tv));
                assert forall|a: int, b: int| 0 <= a < vecs_view(out@).len() && 0 <= b < vecs_view(out@).len() && a != b implies vecs_view(out@)[a] != vecs_view(out@)[b] by {
                    if a == before.len() {
                        assert(vecs_view(out@)[b] == before[b]);
                    } else if b == before.len() {
                        assert(vecs_view(out@)[a] == before[a]);
                    }
                }
            }
        }
        proof {
            assert forall|x: Seq<char>| vecs_view(out@).contains(x) <==> (x.len() > 0 && exists|j: int| 0 <= j < i + 1 && #[trigger] trim(pv[j]) == x) by {
                if vecs_view(out@).contains(x) {
                    if !before.contains(x) {
                        assert(trim(pv[i as int]) == x);
                    }
                }
                if x.len() > 0 && exists|j: int| 0 <= j < i + 1 && #[trigger] trim(pv[j]) == x {
                    let j = choose|j: int| 0 <= j < i + 1 && #[trigger] trim(pv[j]) == x;
                    if j == i {
                        if found {
                            let m = choose|m: int| 0 <= m < before.len() && before[m] == t@;
                            assert(before.contains(x));
                        } else {
                            assert(vecs_view(out@)[before.len() as int] == x);
                        }
                    } else {
                        assert(before.contains(x));
                    }
                    if before.contains(x) {
                        let m = choose|m: int| 0 <= m < before.len() && before[m] == x;
                        assert(vecs_view(out@)[m] == x);
                    }
                }
            }
        }
        i = i + 1;
    }
    let r = strings_of(&out);
    proof {
        assert forall|x: Seq<char>| strings_view(r@).contains(x) <==> names_id(list@, x) by {
            if names_id(list@, x) {
                let j = choose|j: int| 0 <= j < split_char(list@, ',').len() && #[trigger] trim(split_char(list@, ',')[j]) == x;
                assert(trim(pv[j]) == x);
            }
        }
    }
    r
}

// ---------------------------------------------------------------------------
// The configuration
// ---------------------------------------------------------------------------

/// The first setting that is missing or invalid, in the order in which they are read:
/// `APP_BASE_URL` and `APP_PORT` must be set; `APP_PORT` must be a `u16`; and
/// `CODEX_TIMEOUT_SECONDS`, `BROWSER_TASK_TIMEOUT_SECONDS`,
/// `PLAYWRIGHT_CLI_PREFLIGHT_TIMEOUT_SECONDS` and `ENV_HOOK_TIMEOUT_SECONDS`, when
/// set, must be `u64`s.
pub open spec fn config_error(inputs: ConfigInputs) -> Option<ConfigErrorView> {
    if var(inputs, "APP_BASE_URL"@) is None {
        Some(ConfigErrorView::Missing("APP_BASE_URL"@))
    } else if var(inputs, "APP_PORT"@) is None {
        Some(ConfigErrorView::Missing("APP_PORT"@))
    } else if parse_unsigned(var(inputs, "APP_PORT"@)->0, u16::MAX as int) is None {
        Some(ConfigErrorView::Invalid("APP_PORT"@))
    } else if parse_unsigned(var_or(inputs, "CODEX_TIMEOUT_SECONDS"@, "1800"@), u64::MAX as int) is None {
        Some(ConfigErrorView::Invalid("CODEX_TIMEOUT_SECONDS"@))
    } else if parse_unsigned(var_or(inputs, "BROWSER_TASK_TIMEOUT_SECONDS"@, "420"@), u64::MAX as int) is None {
        Some(ConfigErrorView::Invalid("BROWSER_TASK_TIMEOUT_SECONDS"@))
    } else if parse_unsigned(var_or(inputs, "PLAYWRIGHT_CLI_PREFLIGHT_TIMEOUT_SECONDS"@, "20"@), u64::MAX as int) is None {
        Some(ConfigErrorView::Invalid("PLAYWRIGHT_CLI_PREFLIGHT_TIMEOUT_SECONDS"@))
    } else if parse_unsigned(var_or(inputs, "ENV_HOOK_TIMEOUT_SECONDS"@, "900"@), u64::MAX as int) is None {
        Some(ConfigErrorView::Invalid("ENV_HOOK_TIMEOUT_SECONDS"@))
    } else {
        None
    }
}

/// The runtime home: `RELAY_HOME` when set and not blank, else `~/.relay`, else
/// `.relay` in the current directory.
pub open spec fn relay_home_of(inputs: ConfigInputs) -> Seq<char> {
    match var_nonblank(inputs, "RELAY_HOME"@) {
        Some(v) => v,
        None => match inputs.home_dir {
            Some(h) => path_join(h@, ".relay"@),
            None => path_join(inputs.current_dir@, ".relay"@),
        },
    }
}

/// A path setting: the variable when set and not blank, else the default.
pub open spec fn path_or(inputs: ConfigInputs, key: Seq<char>, default: Seq<char>) -> Seq<char> {
    match var_nonblank(inputs, key) {
        Some(v) => v,
        None => default,
    }
}

/// The Playwright CLI wrapper: `PLAYWRIGHT_CLI_WRAPPER` when set and not blank, else
/// under the home directory, else beside the current directory.
pub open spec fn playwright_wrapper_of(inputs: ConfigInputs) -> Seq<char> {
    match var_nonblank(inputs, "PLAYWRIGHT_CLI_WRAPPER"@) {
        Some(v) => v,
        None => match inputs.home_dir {
            Some(h) => path_join(h@, ".codex/skills/playwright/scripts/playwright_cli.sh"@),
            None => path_join(inputs.current_dir@, "../.codex/skills/playwright/scripts/playwright_cli.sh"@),
        },
    }
}

/// The configuration that the inputs give, field by field.
pub open spec fn config_matches(c: Config, inputs: ConfigInputs) -> bool {
    let home = relay_home_of(inputs);
    let base = var(inputs, "APP_BASE_URL"@)->0;
    &&& c.server.host@ == var_or(inputs, "APP_HOST"@, "127.0.0.1"@)
    &&& Some(c.server.port as int) == parse_unsigned(var(inputs, "APP_PORT"@)->0, u16::MAX as int)
    &&& c.server.base_url@ == base
    &&& c.server.portal_base_url@ == (match var_nonblank(inputs, "PORTAL_BASE_URL"@) {
        Some(p) => p,
        None => base,
    })
    &&& c.server.rust_log@ == var_or(inputs, "RUST_LOG"@, "relay_backend=debug,tower_http=info"@)
    &&& c.database.url@ == var_or(inputs, "DATABASE_URL"@, "sqlite:relay.db"@)
    &&& c.slack.bot_token@ == var_or(inputs, "SLACK_BOT_TOKEN"@, ""@)
    &&& c.slack.app_token@ == var_or(inputs, "SLACK_APP_TOKEN"@, ""@)
    &&& strings_view(c.authorization.master_slack_user_ids@).no_duplicates()
    &&& (forall|x: Seq<char>| strings_view(c.authorization.master_slack_user_ids@).contains(x) <==> names_id(var_or(inputs, "MASTER_SLACK_USER_IDS"@, ""@), x))
    &&& c.codex.bin@ == var_or(inputs, "CODEX_BIN"@, "codex"@)
    &&& strings_view(c.codex.default_args@) == words(var_or(inputs, "CODEX_DEFAULT_ARGS"@, ""@))
    &&& Some(c.codex.timeout_seconds as int) == parse_unsigned(var_or(inputs, "CODEX_TIMEOUT_SECONDS"@, "1800"@), u64::MAX as int)
    &&& Some(c.codex.browser_task_timeout_seconds as int) == parse_unsigned(var_or(inputs, "BROWSER_TASK_TIMEOUT_SECONDS"@, "420"@), u64::MAX as int)
    &&& c.codex.playwright_cli_wrapper@ == playwright_wrapper_of(inputs)
    &&& Some(c.codex.playwright_cli_preflight_timeout_seconds as int) == parse_unsigned(var_or(inputs, "PLAYWRIGHT_CLI_PREFLIGHT_TIMEOUT_SECONDS"@, "20"@), u64::MAX as int)
    &&& c.terminal.command@ == var_or(inputs, "TERMINAL_COMMAND"@, "/bin/zsh"@)
    &&& Some(c.hooks.timeout_seconds as int) == parse_unsigned(var_or(inputs, "ENV_HOOK_TIMEOUT_SECONDS"@, "900"@), u64::MAX as int)
    &&& c.paths.relay_home@ == home
    &&& c.paths.sources_dir@ == path_or(inputs, "RELAY_SOURCES_DIR"@, path_join(home, "sources"@))
    &&& c.paths.workspaces_dir@ == path_or(inputs, "RELAY_WORKSPACES_DIR"@, path_join(home, "workspaces"@))
    &&& c.paths.policies_dir@ == path_or(inputs, "RELAY_POLICIES_DIR"@, path_join(inputs.current_dir@, "../.policies"@))
    &&& c.paths.workflows_dir@ == path_or(inputs, "RELAY_WORKFLOWS_DIR"@, path_join(inputs.current_dir@, "../.workflows"@))
}

fn path_setting(inputs: &ConfigInputs, key: &str, default: String) -> (r: String)
    ensures
        r@ == path_or(*inputs, key@, default@),
{
    match env_nonblank(inputs, key) {
        Some(v) => v,
        None => default,
    }
}

fn u64_setting(inputs: &ConfigInputs, key: &str, default: &str) -> (r: Result<u64, ConfigError>)
    ensures
        match r {
            Ok(v) => parse_unsigned(var_or(*inputs, key@, default@), u64::MAX as int) == Some(v as int),
            Err(e) => parse_unsigned(var_or(*inputs, key@, default@), u64::MAX as int) is None && e@ == ConfigErrorView::Invalid(key@),
        },
{
    let raw = env_or(inputs, key, default);
    match parse_bounded(raw.as_str(), u64::MAX) {
        Some(v) => Ok(v),
        None => Err(ConfigError::Invalid(key.to_owned())),
    }
}

impl Config {
    /// Computes the configuration, or the first setting that is missing or invalid.
    pub fn from_inputs(inputs: &ConfigInputs) -> (r: Result<Config, ConfigError>)
        ensures
            match r {
                Ok(c) => config_error(*inputs) is None && config_matches(c, *inputs),
                Err(e) => config_error(*inputs) == Some(e@),
            },
    {
        let relay_home = match env_nonblank(inputs, "RELAY_HOME") {
            Some(v) => v,
            None => match &inputs.home_dir {
                Some(h) => join_path(h.as_str(), ".relay"),
                None => join_path(inputs.current_dir.as_str(), ".relay"),
            },
        };
        let sources_dir = path_setting(inputs, "RELAY_SOURCES_DIR", join_path(relay_home.as_str(), "sources"));
        let workspaces_dir = path_setting(inputs, "RELAY_WORKSPACES_DIR", join_path(relay_home.as_str(), "workspaces"));
        let policies_dir = path_setting(inputs, "RELAY_POLICIES_DIR", join_path(inputs.current_dir.as_str(), "../.policies"));
        let workflows_dir = path_setting(inputs, "RELAY_WORKFLOWS_DIR", join_path(inputs.current_dir.as_str(), "../.workflows"));
        let app_base_url = match env_var(inputs, "APP_BASE_URL") {
            Some(v) => v,
            None => {
                return Err(ConfigError::Missing("APP_BASE_URL".to_owned()));
            },
        };
        let portal_base_url = match env_nonblank(inputs, "PORTAL_BASE_URL") {
            Some(v) => v,
            None => app_base_url.clone(),
        };
        let host = env_or(inputs, "APP_HOST", "127.0.0.1");
        let port_raw = match env_var(inputs, "APP_PORT") {
            Some(v) => v,
            None => {
                return Err(ConfigError::Missing("APP_PORT".to_owned()));
            },
        };
        let port = match parse_bounded(port_raw.as_str(), 65535) {
            Some(p) => p as u16,
            None => {
                return Err(ConfigError::Invalid("APP_PORT".to_owned()));
            },
        };
        let rust_log = env_or(inputs, "RUST_LOG", "relay_backend=debug,tower_http=info");
        let database_url = env_or(inputs, "DATABASE_URL", "sqlite:relay.db");
        let bot_token = env_or(inputs, "SLACK_BOT_TOKEN", "");
        let app_token = env_or(inputs, "SLACK_APP_TOKEN", "");
        let masters_raw = env_or(inputs, "MASTER_SLACK_USER_IDS", "");
        let masters = parse_id_list(masters_raw.as_str());
        let bin = env_or(inputs, "CODEX_BIN", "codex");
        let args_raw = env_or(inputs, "CODEX_DEFAULT_ARGS", "");
        let args_v = chars_of(args_raw.as_str());
        let arg_words = split_words(&args_v);
        let default_args = strings_of(&arg_words);
        let timeout_seconds = u64_setting(inputs, "CODEX_TIMEOUT_SECONDS", "1800")?;
        let browser_task_timeout_seconds = u64_setting(inputs, "BROWSER_TASK_TIMEOUT_SECONDS", "420")?;
        let playwright_cli_wrapper = match env_nonblank(inputs, "PLAYWRIGHT_CLI_WRAPPER") {
            Some(v) => v,
            None => match &inputs.home_dir {
                Some(h) => join_path(h.as_str(), ".codex/skills/playwright/scripts/playwright_cli.sh"),
                None => join_path(inputs.current_dir.as_str(), "../.codex/skills/playwright/scripts/playwright_cli.sh"),
            },
        };
        let preflight = u64_setting(inputs, "PLAYWRIGHT_CLI_PREFLIGHT_TIMEOUT_SECONDS", "20")?;
        let command = env_or(inputs, "TERMINAL_COMMAND", "/bin/zsh");
        let hook_timeout = u64_setting(inputs, "ENV_HOOK_TIMEOUT_SECONDS", "900")?;
        let c = Config {
            server: ServerConfig { host, port, base_url: app_base_url, portal_base_url, rust_log },
            database: DatabaseConfig { url: database_url },
            slack: SlackConfig { bot_token, app_token },
            authorization: AuthorizationConfig { master_slack_user_ids: masters },
            codex: CodexConfig {
                bin,
                default_args,
                timeout_seconds,
                browser_task_timeout_seconds,
                playwright_cli_wrapper,
                playwright_cli_preflight_timeout_seconds: preflight,
            },
            terminal: TerminalConfig { command },
            hooks: HookConfig { timeout_seconds: hook_timeout },
            paths: PathConfig { relay_home, sources_dir, workspaces_dir, policies_dir, workflows_dir },
        };
        Ok(c)
    }
}

} // verus!
