//! What the Slack Web API answers, and how each answer is read.
use vstd::prelude::*;
use crate::text::{opt_view, str_eq};

verus! {

/// The answer to `apps.connections.open`.
#[derive(Debug)]
pub struct SlackOpenConnectionResponse {
    pub ok: bool,
    pub url: Option<String>,
    pub error: Option<String>,
}

/// A single message, as `conversations.history` or `conversations.replies` reports it.
#[derive(Debug)]
pub struct SlackFetchedMessage {
    pub ts: String,
    pub thread_ts: Option<String>,
    pub text: Option<String>,
    pub user: Option<String>,
    pub bot_id: Option<String>,
}

/// Who the bot token belongs to, as `auth.test` reports it.
#[derive(Debug)]
pub struct SlackAuthIdentity {
    pub user_id: String,
    pub bot_id: Option<String>,
}

/// The error text of a refused call: Slack's own, or the call's fallback.
pub open spec fn error_text(error: Option<Seq<char>>, fallback: Seq<char>) -> Seq<char> {
    match error {
        Some(e) => e,
        None => fallback,
    }
}

fn error_or(error: &Option<String>, fallback: &str) -> (r: String)
    ensures
        r@ == error_text(opt_view(*error), fallback@),
{
    match error {
        Some(e) => e.clone(),
        None => fallback.to_string(),
    }
}

/// How a call that returns nothing is read: success when Slack says `ok`, else its
/// error, or `fallback` when it gave none.
pub fn api_outcome(ok: bool, error: &Option<String>, fallback: &str) -> (r: Result<(), String>)
    ensures
        ok ==> r is Ok,
        !ok ==> (r is Err && r->Err_0@ == error_text(opt_view(*error), fallback@)),
{
    if ok {
        Ok(())
    } else {
        Err(error_or(error, fallback))
    }
}

/// How the answer to `apps.connections.open` is read: the Socket Mode URL, or why
/// there is none.
pub fn socket_url_outcome(response: &SlackOpenConnectionResponse) -> (r: Result<String, String>)
    ensures
        response.ok && response.url is Some ==> (r is Ok && r->Ok_0@ == response.url->Some_0@),
        response.ok && response.url is None ==> (r is Err && r->Err_0@ == "missing socket mode URL"@),
        !response.ok ==> (r is Err && r->Err_0@ == error_text(
            opt_view(response.error),
            "socket mode failed"@,
        )),
{
    if response.ok {
        match &response.url {
            Some(u) => Ok(u.clone()),
            None => Err("missing socket mode URL".to_string()),
        }
    } else {
        Err(error_or(&response.error, "socket mode failed"))
    }
}

/// The reaction name tried again after a refused reaction: the custom white tick
/// falls back to the standard check mark when the workspace does not know it.
pub fn reaction_retry_name(name: &str, error: &str) -> (r: Option<String>)
    ensures
        (name@ == "white-tick"@ && error@ == "invalid_name"@) ==> (r is Some && r->Some_0@
            == "white_check_mark"@),
        !(name@ == "white-tick"@ && error@ == "invalid_name"@) ==> r is None,
{
    if str_eq(name, "white-tick") && str_eq(error, "invalid_name") {
        Some("white_check_mark".to_string())
    } else {
        None
    }
}

/// How the answer to `reactions.remove` is read: a reaction that is already gone is
/// no failure.
pub fn remove_reaction_outcome(ok: bool, error: &Option<String>) -> (r: Result<(), String>)
    ensures
        ok ==> r is Ok,
        !ok && error_text(opt_view(*error), "reaction remove failed"@) == "no_reaction"@ ==> r is Ok,
        !ok && error_text(opt_view(*error), "reaction remove failed"@) != "no_reaction"@ ==> (r is Err
            && r->Err_0@ == error_text(opt_view(*error), "reaction remove failed"@)),
{
    if ok {
        return Ok(());
    }
    let e = error_or(error, "reaction remove failed");
    if str_eq(e.as_str(), "no_reaction") {
        Ok(())
    } else {
        Err(e)
    }
}

} // verus!
