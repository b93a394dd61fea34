//! Workspace terminals: the messages sent to browsers and the bounded output history.
use vstd::prelude::*;
use vstd::string::StringSliceAdditionalSpecFns;
use crate::text::{append_str, chars_of, opt_view, string_of};
use vstd::utf8::{
    encode_utf8, is_char_boundary, is_continuation_byte, length_of_first_scalar, pop_first_scalar, valid_utf8,
};

verus! {

/// The most output history a terminal keeps, in bytes.
pub const OUTPUT_BUFFER_LIMIT: usize = 1_000_000;

/// A message sent to a browser attached to a terminal.
#[derive(Debug)]
#[allow(inconsistent_fields)]
pub enum TerminalSocketMessage {
    Snapshot { cwd: String, shell: String, data: String, active: bool },
    Output { data: String },
    Status { status: String, message: Option<String>, exit_code: Option<i32> },
    Error { message: String },
}

/// The first position at or after `from` of a newline byte in `bytes`.
pub open spec fn newline_from(bytes: Seq<u8>, from: int) -> Option<int>
    decreases bytes.len() - from,
{
    if from < 0 || from >= bytes.len() {
        None
    } else if bytes[from] == 10u8 {
        Some(from)
    } else {
        newline_from(bytes, from + 1)
    }
}

/// Where history is cut so that at least `minimum` bytes go: just after the first
/// newline at or after `minimum`, or at `minimum` when there is none; nothing is cut
/// when `minimum` is 0.
pub open spec fn trim_point(bytes: Seq<u8>, minimum: int) -> int {
    if minimum == 0 {
        0
    } else {
        match newline_from(bytes, minimum) {
            Some(i) => i + 1,
            None => minimum,
        }
    }
}

/// The byte offset at which history is cut so that at least `minimum` bytes go and
/// the kept part starts at a line.
pub fn trim_offset(buffer: &str, minimum: usize) -> (r: usize)
    requires
        minimum == 0 || vstd::utf8::is_char_boundary(buffer.spec_bytes(), minimum as int),
        minimum <= buffer.spec_bytes().len(),
    ensures
        r as int == trim_point(buffer.spec_bytes(), minimum as int),
        r <= buffer.spec_bytes().len(),
{
    if minimum == 0 {
        return 0;
    }
    let bytes = buffer.as_bytes();
    let mut i = minimum;
    while i < bytes.len()
        invariant
            0 < minimum <= i <= bytes@.len(),
            bytes@ == buffer.spec_bytes(),
            newline_from(bytes@, minimum as int) == newline_from(bytes@, i as int),
        decreases bytes.len() - i,
    {
        if bytes[i] == 10u8 {
            assert(newline_from(bytes@, i as int) == Some(i as int));
            return i + 1;
        }
        i = i + 1;
    }
    minimum
}

/// How many bytes of history go after a chunk is appended: none while the history
/// is within the limit, otherwise up to the first line that keeps it within.
pub open spec fn history_cut(bytes: Seq<u8>) -> int {
    if bytes.len() <= OUTPUT_BUFFER_LIMIT {
        0
    } else {
        trim_point(bytes, bytes.len() - OUTPUT_BUFFER_LIMIT)
    }
}

/// How many leading bytes of the history to drop after a chunk was appended.
pub fn history_trim_length(history: &str) -> (r: usize)
    requires
        history.spec_bytes().len() <= OUTPUT_BUFFER_LIMIT || vstd::utf8::is_char_boundary(
            history.spec_bytes(),
            history.spec_bytes().len() - OUTPUT_BUFFER_LIMIT,
        ),
    ensures
        r as int == history_cut(history.spec_bytes()),
{
    let n = history.as_bytes().len();
    if n <= OUTPUT_BUFFER_LIMIT {
        return 0;
    }
    trim_offset(history, n - OUTPUT_BUFFER_LIMIT)
}

/// The status sent when a terminal starts for a workspace.
pub fn connected_status(session_id: &str, shell: &str) -> (r: TerminalSocketMessage)
    ensures
        r matches TerminalSocketMessage::Status { status, message, exit_code } && status@ == "connected"@
            && opt_view(message) == Some("Attached terminal for workspace "@ + session_id@ + " using `"@ + shell@ + "`."@)
            && exit_code is None,
{
    let mut v = chars_of("Attached terminal for workspace ");
    append_str(&mut v, session_id);
    append_str(&mut v, " using `");
    append_str(&mut v, shell);
    append_str(&mut v, "`.");
    TerminalSocketMessage::Status { status: "connected".to_string(), message: Some(string_of(&v)), exit_code: None }
}

/// The status sent when the terminal's process exits, with its exit code if any.
pub fn exited_status(exit_code: Option<i32>) -> (r: TerminalSocketMessage)
    ensures
        r matches TerminalSocketMessage::Status { status, message, exit_code: code } && status@ == "exited"@
            && opt_view(message) == Some("Terminal session ended."@) && code == exit_code,
{
    TerminalSocketMessage::Status {
        status: "exited".to_string(),
        message: Some("Terminal session ended.".to_string()),
        exit_code,
    }
}

/// The error sent when reading the terminal's output fails.
pub fn stream_error(error: &str) -> (r: TerminalSocketMessage)
    ensures
        r matches TerminalSocketMessage::Error { message } && message@ == "Terminal stream error: "@ + error@,
{
    let mut v = chars_of("Terminal stream error: ");
    append_str(&mut v, error);
    TerminalSocketMessage::Error { message: string_of(&v) }
}

/// The error sent when waiting for the terminal's process fails.
pub fn session_failed(error: &str) -> (r: TerminalSocketMessage)
    ensures
        r matches TerminalSocketMessage::Error { message } && message@ == "Terminal session failed: "@ + error@,
{
    let mut v = chars_of("Terminal session failed: ");
    append_str(&mut v, error);
    TerminalSocketMessage::Error { message: string_of(&v) }
}

/// The error of a terminal asked for in a workspace that does not exist.
pub fn missing_workspace_error(path: &str) -> (r: String)
    ensures
        r@ == "workspace path does not exist: "@ + path@,
{
    let mut v = chars_of("workspace path does not exist: ");
    append_str(&mut v, path);
    string_of(&v)
}

proof fn lemma_newline_from_bounds(bytes: Seq<u8>, from: int)
    ensures
        match newline_from(bytes, from) {
            Some(i) => from <= i < bytes.len() && bytes[i] == 10u8,
            None => true,
        },
    decreases bytes.len() - from,
{
    if from < 0 || from >= bytes.len() {
    } else if bytes[from] == 10u8 {
    } else {
        lemma_newline_from_bounds(bytes, from + 1);
    }
}

/// The output history stays bounded: once a chunk is appended and the history is
/// cut, at most `OUTPUT_BUFFER_LIMIT` bytes remain, nothing beyond the history is
/// cut, and a cut past the required minimum ends just after a newline, so the kept
/// history starts at a line.
pub proof fn lemma_history_stays_bounded(bytes: Seq<u8>)
    ensures
        0 <= history_cut(bytes) <= bytes.len(),
        bytes.len() - history_cut(bytes) <= OUTPUT_BUFFER_LIMIT,
        history_cut(bytes) > bytes.len() - OUTPUT_BUFFER_LIMIT && history_cut(bytes) > 0 ==> bytes[history_cut(
            bytes,
        ) - 1] == 10u8,
{
    if bytes.len() > OUTPUT_BUFFER_LIMIT {
        lemma_newline_from_bounds(bytes, bytes.len() - OUTPUT_BUFFER_LIMIT);
    }
}

/// The byte after an ASCII byte of valid UTF-8 starts a character (or ends the text).
proof fn lemma_boundary_after_ascii(bytes: Seq<u8>, i: int)
    requires
        valid_utf8(bytes),
        0 <= i < bytes.len(),
        bytes[i] < 0x80u8,
    ensures
        is_char_boundary(bytes, i + 1),
{
    broadcast use vstd::utf8::is_char_boundary_iff_not_is_continuation_byte,
        vstd::utf8::is_char_boundary_start_end_of_seq, vstd::utf8::valid_utf8_split;

    if i + 1 == bytes.len() {
        assert(is_char_boundary(bytes, bytes.len() as int));
    } else {
        assert(!is_continuation_byte(bytes[i]));
        assert(is_char_boundary(bytes, i));
        let s = bytes.subrange(i, bytes.len() as int);
        assert(valid_utf8(s));
        assert(s[0] == bytes[i]);
        assert(length_of_first_scalar(s) == 1);
        let p = pop_first_scalar(s);
        assert(p =~= bytes.subrange(i + 1, bytes.len() as int));
        assert(valid_utf8(p));
        assert(is_char_boundary(p, 0));
        assert(p[0] == bytes[i + 1]);
        assert(!is_continuation_byte(p[0]));
        assert(is_char_boundary(bytes, i + 1));
    }
}

/// The output history after a chunk is appended: the history followed by the chunk,
/// without the leading bytes that `history_cut` says go.
pub fn append_history(history: &str, chunk: &str) -> (r: String)
    requires
        encode_utf8(history@ + chunk@).len() <= OUTPUT_BUFFER_LIMIT || is_char_boundary(
            encode_utf8(history@ + chunk@),
            encode_utf8(history@ + chunk@).len() - OUTPUT_BUFFER_LIMIT,
        ),
    ensures
        ({
            let b = encode_utf8(history@ + chunk@);
            encode_utf8(r@) == b.subrange(history_cut(b), b.len() as int)
        }),
        encode_utf8(r@).len() <= OUTPUT_BUFFER_LIMIT,
{
    broadcast use vstd::utf8::encode_utf8_valid_utf8, vstd::utf8::is_char_boundary_start_end_of_seq;

    let mut v = chars_of(history);
    append_str(&mut v, chunk);
    let joined = string_of(&v);
    let ghost b = encode_utf8(joined@);
    assert(b == encode_utf8(history@ + chunk@));
    let cut = history_trim_length(joined.as_str());
    proof {
        lemma_history_stays_bounded(b);
        assert(valid_utf8(b));
        if b.len() > OUTPUT_BUFFER_LIMIT {
            let minimum = b.len() - OUTPUT_BUFFER_LIMIT;
            lemma_newline_from_bounds(b, minimum);
            match newline_from(b, minimum) {
                Some(i) => lemma_boundary_after_ascii(b, i),
                None => {},
            }
        }
    }
    let (_, kept) = joined.as_str().split_at(cut);
    kept.to_string()
}

} // verus!
