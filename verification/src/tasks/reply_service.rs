//! The stored form of a reply posted to a thread.
use vstd::prelude::*;
use crate::slack::formatter::{json_string_literal, resolved_payload, resolved_payload_json, to_json_string_literal};
use crate::text::{append_str, chars_of, string_of};

verus! {

/// The raw stored form of an outbound reply: a JSON object holding its text.
pub open spec fn raw_outbound(text: Seq<char>) -> Seq<char> {
    "{\"text\":"@ + json_string_literal(text) + "}"@
}

/// The two stored forms of an outbound reply: the raw one, and the one whose text
/// has its Slack markup resolved.
pub fn outbound_payloads(text: &str) -> (r: (String, String))
    ensures
        r.0@ == raw_outbound(text@),
        r.1@ == resolved_payload(text@),
{
    let literal = to_json_string_literal(text);
    let mut raw = chars_of("{\"text\":");
    append_str(&mut raw, literal.as_str());
    append_str(&mut raw, "}");
    (string_of(&raw), resolved_payload_json(text))
}

} // verus!
