//! How Socket Mode frames are handled.
use vstd::prelude::*;
use crate::config::Config;
use crate::slack::formatter::{json_string_literal, to_json_string_literal};
use crate::text::{append_str, chars_of, opt_view, str_eq, string_of};

verus! {

/// Socket Mode runs only when both Slack tokens are set.
pub fn socket_mode_enabled(config: &Config) -> (r: bool)
    ensures
        r == (config.slack.app_token@.len() > 0 && config.slack.bot_token@.len() > 0),
{
    !config.slack.app_token.as_str().is_empty() && !config.slack.bot_token.as_str().is_empty()
}

/// What is done with a text frame: the acknowledgement to send back, if any, and
/// whether its envelope is handled as an event.
#[derive(Debug)]
pub struct FrameHandling {
    pub ack: Option<String>,
    pub dispatch: bool,
}

/// The acknowledgement of an envelope: a JSON object holding its id.
pub open spec fn envelope_ack(envelope_id: Seq<char>) -> Seq<char> {
    "{\"envelope_id\":"@ + json_string_literal(envelope_id) + "}"@
}

/// How a frame is handled, from its `type`, its `envelope_id` and whether it has a
/// payload: a `hello` frame is skipped; any other frame with an envelope id is
/// acknowledged, and an `events_api` frame with a payload is handled.
pub fn socket_frame_handling(frame_type: Option<&str>, envelope_id: Option<&str>, has_payload: bool) -> (r:
    FrameHandling)
    ensures
        ({
            let t = match frame_type {
                Some(s) => Some(s@),
                None => None,
            };
            if t == Some("hello"@) {
                r.ack is None && !r.dispatch
            } else {
                &&& opt_view(r.ack) == (match envelope_id {
                    Some(id) => Some(envelope_ack(id@)),
                    None => None,
                })
                &&& r.dispatch == (has_payload && t == Some("events_api"@))
            }
        }),
{
    let is_hello = match frame_type {
        Some(t) => str_eq(t, "hello"),
        None => false,
    };
    if is_hello {
        return FrameHandling { ack: None, dispatch: false };
    }
    let ack = match envelope_id {
        Some(id) => {
            let literal = to_json_string_literal(id);
            let mut v = chars_of("{\"envelope_id\":");
            append_str(&mut v, literal.as_str());
            append_str(&mut v, "}");
            Some(string_of(&v))
        },
        None => None,
    };
    let is_events = match frame_type {
        Some(t) => str_eq(t, "events_api"),
        None => false,
    };
    FrameHandling { ack, dispatch: has_payload && is_events }
}

} // verus!
