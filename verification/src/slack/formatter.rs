//! Rendering Slack message markup for display.
//!
//! Slack encodes mentions and links as `<...>` entities. For display, user mentions
//! `<@U123>` become `@U123`, channel mentions `<#C1|general>` become `#general`,
//! user-group mentions `<!subteam^S1|team>` become `@team`, and labelled links
//! `<https://x|label>` become `label (https://x)`. Each kind is rewritten in one
//! left-to-right pass over the text, in that order, each pass taking the leftmost
//! entity at each position and continuing after it.
use vstd::prelude::*;
use crate::text::{append_slice, append_str, chars_of, string_of};

verus! {

/// The kinds of Slack entities, in the order in which they are rewritten.
#[derive(Clone, Copy, PartialEq, Eq, Structural)]
pub enum Markup {
    User,
    Channel,
    Subteam,
    Link,
}

/// An upper-case ASCII letter or an ASCII digit.
pub open spec fn is_id_char(c: char) -> bool {
    ('A' <= c && c <= 'Z') || ('0' <= c && c <= '9')
}

/// The end of the run of id characters of `s` that starts at `k`.
pub open spec fn span_id(s: Seq<char>, k: int) -> int
    decreases s.len() - k,
{
    if k < 0 || k >= s.len() || !is_id_char(s[k]) {
        k
    } else {
        span_id(s, k + 1)
    }
}

/// The end of the run of characters of `s` other than `c` that starts at `k`.
pub open spec fn span_not(s: Seq<char>, k: int, c: char) -> int
    decreases s.len() - k,
{
    if k < 0 || k >= s.len() || s[k] == c {
        k
    } else {
        span_not(s, k + 1, c)
    }
}

/// The end of the run of characters of `s` other than `c` and `d` that starts at `k`.
pub open spec fn span_not2(s: Seq<char>, k: int, c: char, d: char) -> int
    decreases s.len() - k,
{
    if k < 0 || k >= s.len() || s[k] == c || s[k] == d {
        k
    } else {
        span_not2(s, k + 1, c, d)
    }
}

/// `p` occurs at `i` in `s`.
pub open spec fn lit_at(s: Seq<char>, p: Seq<char>, i: int) -> bool {
    0 <= i && i + p.len() <= s.len() && s.subrange(i, i + p.len()) == p
}

/// A label run `[^>]+` starting at `k`: it must be non-empty and be followed by `>`.
/// Gives the position of that `>`.
pub open spec fn label_end(s: Seq<char>, k: int) -> Option<int> {
    let e = span_not(s, k, '>');
    if e > k && e < s.len() {
        Some(e)
    } else {
        None
    }
}

/// The entity of the given kind that starts at `i`, if any: the position just after
/// it and the text that replaces it.
pub open spec fn markup_at(s: Seq<char>, kind: Markup, i: int) -> Option<(int, Seq<char>)> {
    if i < 0 || i >= s.len() || s[i] != '<' {
        None
    } else {
        match kind {
            Markup::User => {
                let j = span_id(s, i + 2);
                if lit_at(s, seq!['<', '@'], i) && j > i + 2 && j < s.len() && s[j] == '>' {
                    Some((j + 1, seq!['@'] + s.subrange(i + 2, j)))
                } else {
                    None
                }
            },
            Markup::Channel => {
                let j = span_id(s, i + 2);
                if lit_at(s, seq!['<', '#'], i) && j > i + 2 && j < s.len() && s[j] == '|' {
                    match label_end(s, j + 1) {
                        Some(k) => Some((k + 1, seq!['#'] + s.subrange(j + 1, k))),
                        None => None,
                    }
                } else {
                    None
                }
            },
            Markup::Subteam => {
                let p = "<!subteam^"@;
                let j = span_not(s, i + p.len(), '|');
                if lit_at(s, p, i) && j > i + p.len() && j < s.len() {
                    match label_end(s, j + 1) {
                        Some(k) => Some((k + 1, seq!['@'] + s.subrange(j + 1, k))),
                        None => None,
                    }
                } else {
                    None
                }
            },
            Markup::Link => {
                let rest = if lit_at(s, "<https://"@, i) {
                    i + "<https://"@.len()
                } else if lit_at(s, "<http://"@, i) {
                    i + "<http://"@.len()
                } else {
                    -1
                };
                let j = span_not2(s, rest, '>', '|');
                if rest > 0 && j > rest && j < s.len() && s[j] == '|' {
                    match label_end(s, j + 1) {
                        Some(k) => Some(
                            (k + 1, s.subrange(j + 1, k) + seq![' ', '('] + s.subrange(i + 1, j) + seq![')']),
                        ),
                        None => None,
                    }
                } else {
                    None
                }
            },
        }
    }
}

/// The text from position `i` on with every entity of the given kind rewritten.
pub open spec fn rewrite_from(s: Seq<char>, kind: Markup, i: int) -> Seq<char>
    decreases s.len() - i,
{
    if i < 0 || i >= s.len() {
        seq![]
    } else {
        match markup_at(s, kind, i) {
            Some((end, rep)) => if end > i {
                rep + rewrite_from(s, kind, end)
            } else {
                seq![]
            },
            None => seq![s[i]] + rewrite_from(s, kind, i + 1),
        }
    }
}

/// The text with every entity of the given kind rewritten.
pub open spec fn rewrite(s: Seq<char>, kind: Markup) -> Seq<char> {
    rewrite_from(s, kind, 0)
}

/// The display form of a Slack message text.
pub open spec fn resolved_text(s: Seq<char>) -> Seq<char> {
    rewrite(rewrite(rewrite(rewrite(s, Markup::User), Markup::Channel), Markup::Subteam), Markup::Link)
}

fn is_id_char_exec(c: char) -> (r: bool)
    ensures
        r == is_id_char(c),
{
    ('A' <= c && c <= 'Z') || ('0' <= c && c <= '9')
}

fn span_id_exec(s: &[char], k: usize) -> (r: usize)
    requires
        k <= s@.len(),
    ensures
        r == span_id(s@, k as int),
        k <= r <= s@.len(),
{
    let mut e = k;
    while e < s.len() && is_id_char_exec(s[e])
        invariant
            k <= e <= s@.len(),
            span_id(s@, k as int) == span_id(s@, e as int),
        decreases s.len() - e,
    {
        e = e + 1;
    }
    e
}

fn span_not_exec(s: &[char], k: usize, c: char) -> (r: usize)
    requires
        k <= s@.len(),
    ensures
        r == span_not(s@, k as int, c),
        k <= r <= s@.len(),
{
    let mut e = k;
    while e < s.len() && s[e] != c
        invariant
            k <= e <= s@.len(),
            span_not(s@, k as int, c) == span_not(s@, e as int, c),
        decreases s.len() - e,
    {
        e = e + 1;
    }
    e
}

fn span_not2_exec(s: &[char], k: usize, c: char, d: char) -> (r: usize)
    requires
        k <= s@.len(),
    ensures
        r == span_not2(s@, k as int, c, d),
        k <= r <= s@.len(),
{
    let mut e = k;
    while e < s.len() && s[e] != c && s[e] != d
        invariant
            k <= e <= s@.len(),
            span_not2(s@, k as int, c, d) == span_not2(s@, e as int, c, d),
        decreases s.len() - e,
    {
        e = e + 1;
    }
    e
}

fn lit_at_exec(s: &[char], p: &[char], i: usize) -> (r: bool)
    ensures
        r == lit_at(s@, p@, i as int),
{
    if i > s.len() || p.len() > s.len() - i {
        return false;
    }
    let mut j: usize = 0;
    while j < p.len()
        invariant
            j <= p@.len(),
            i + p@.len() <= s@.len(),
            forall|k: int| 0 <= k < j ==> s@[i + k] == p@[k],
        decreases p.len() - j,
    {
        assert(i + j < s.len());
        if s[i + j] != p[j] {
            assert(s@.subrange(i as int, i + p@.len())[j as int] != p@[j as int]);
            return false;
        }
        j = j + 1;
    }
    assert(s@.subrange(i as int, i + p@.len()) =~= p@);
    true
}

fn label_end_exec(s: &[char], k: usize) -> (r: Option<usize>)
    requires
        k <= s@.len(),
    ensures
        match r {
            Some(e) => label_end(s@, k as int) == Some(e as int) && k < e < s@.len(),
            None => label_end(s@, k as int) is None,
        },
{
    let e = span_not_exec(s, k, '>');
    if e > k && e < s.len() {
        Some(e)
    } else {
        None
    }
}

/// The entity of the given kind that starts at `i`, if any.
fn markup_at_exec(s: &[char], kind: Markup, i: usize, subteam: &[char], https: &[char], http: &[char]) -> (r: Option<(usize, Vec<char>)>)
    requires
        i < s@.len(),
        subteam@ == "<!subteam^"@,
        https@ == "<https://"@,
        http@ == "<http://"@,
    ensures
        match r {
            Some((end, rep)) => markup_at(s@, kind, i as int) == Some((end as int, rep@)) && i < end <= s@.len(),
            None => markup_at(s@, kind, i as int) is None,
        },
{
    if s[i] != '<' {
        return None;
    }
    let ghost sv = s@;
    match kind {
        Markup::User => {
            if i + 1 < s.len() && s[i + 1] == '@' {
                assert(lit_at(sv, seq!['<', '@'], i as int)) by {
                    assert(sv.subrange(i as int, i + 2) =~= seq!['<', '@']);
                }
                let j = span_id_exec(s, i + 2);
                if j > i + 2 && j < s.len() && s[j] == '>' {
                    let mut rep = vec!['@'];
                    append_slice(&mut rep, &s[i + 2..j]);
                    assert(rep@ =~= seq!['@'] + sv.subrange(i + 2, j as int));
                    return Some((j + 1, rep));
                }
                None
            } else {
                assert(!lit_at(sv, seq!['<', '@'], i as int)) by {
                    if lit_at(sv, seq!['<', '@'], i as int) {
                        assert(sv.subrange(i as int, i + 2)[1] == sv[i + 1]);
                    }
                }
                None
            }
        },
        Markup::Channel => {
            if i + 1 < s.len() && s[i + 1] == '#' {
                assert(lit_at(sv, seq!['<', '#'], i as int)) by {
                    assert(sv.subrange(i as int, i + 2) =~= seq!['<', '#']);
                }
                let j = span_id_exec(s, i + 2);
                if j > i + 2 && j < s.len() && s[j] == '|' {
                    match label_end_exec(s, j + 1) {
                        Some(k) => {
                            let mut rep = vec!['#'];
                            append_slice(&mut rep, &s[j + 1..k]);
                            assert(rep@ =~= seq!['#'] + sv.subrange(j + 1, k as int));
                            return Some((k + 1, rep));
                        },
                        None => {
                            return None;
                        },
                    }
                }
                None
            } else {
                assert(!lit_at(sv, seq!['<', '#'], i as int)) by {
                    if lit_at(sv, seq!['<', '#'], i as int) {
                        assert(sv.subrange(i as int, i + 2)[1] == sv[i + 1]);
                    }
                }
                None
            }
        },
        Markup::Subteam => {
            if lit_at_exec(s, subteam, i) {
                let start = i + subteam.len();
                let j = span_not_exec(s, start, '|');
                if j > start && j < s.len() {
                    match label_end_exec(s, j + 1) {
                        Some(k) => {
                            let mut rep = vec!['@'];
                            append_slice(&mut rep, &s[j + 1..k]);
                            assert(rep@ =~= seq!['@'] + sv.subrange(j + 1, k as int));
                            return Some((k + 1, rep));
                        },
                        None => {
                            return None;
                        },
                    }
                }
            }
            None
        },
        Markup::Link => {
            let rest: usize = if lit_at_exec(s, https, i) {
                i + https.len()
            } else if lit_at_exec(s, http, i) {
                i + http.len()
            } else {
                return None;
            };
            let ghost spec_rest: int = if lit_at(sv, "<https://"@, i as int) {
                i + "<https://"@.len()
            } else if lit_at(sv, "<http://"@, i as int) {
                i + "<http://"@.len()
            } else {
                -1
            };
            assert(spec_rest == rest);
            proof {
                reveal_strlit("<https://");
                reveal_strlit("<http://");
            }
            let j = span_not2_exec(s, rest, '>', '|');
            if j > rest && j < s.len() && s[j] == '|' {
                match label_end_exec(s, j + 1) {
                    Some(k) => {
                        let mut rep: Vec<char> = Vec::new();
                        append_slice(&mut rep, &s[j + 1..k]);
                        let open_paren = vec![' ', '('];
                        let close_paren = vec![')'];
                        assert(open_paren@ =~= seq![' ', '(']);
                        assert(close_paren@ =~= seq![')']);
                        append_slice(&mut rep, &open_paren);
                        append_slice(&mut rep, &s[i + 1..j]);
                        append_slice(&mut rep, &close_paren);
                        assert(rep@ =~= sv.subrange(j + 1, k as int) + seq![' ', '('] + sv.subrange(i + 1, j as int) + seq![')']);
                        return Some((k + 1, rep));
                    },
                    None => {
                        return None;
                    },
                }
            }
            None
        },
    }
}

/// Rewrites every entity of the given kind in a character buffer.
fn rewrite_exec(s: &[char], kind: Markup) -> (r: Vec<char>)
    ensures
        r@ == rewrite(s@, kind),
{
    let subteam = chars_of("<!subteam^");
    let https = chars_of("<https://");
    let http = chars_of("<http://");
    let mut out: Vec<char> = Vec::new();
    let mut i: usize = 0;
    while i < s.len()
        invariant
            i <= s@.len(),
            subteam@ == "<!subteam^"@,
            https@ == "<https://"@,
            http@ == "<http://"@,
            rewrite(s@, kind) == out@ + rewrite_from(s@, kind, i as int),
        decreases s.len() - i,
    {
        match markup_at_exec(s, kind, i, &subteam, &https, &http) {
            Some((end, rep)) => {
                let ghost before = out@;
                append_slice(&mut out, &rep);
                assert(before + (rep@ + rewrite_from(s@, kind, end as int)) =~= out@ + rewrite_from(s@, kind, end as int));
                assert(rewrite(s@, kind) =~= out@ + rewrite_from(s@, kind, end as int));
                i = end;
            },
            None => {
                let ghost before = out@;
                out.push(s[i]);
                assert(rewrite(s@, kind) =~= out@ + rewrite_from(s@, kind, i + 1));
                i = i + 1;
            },
        }
    }
    assert(rewrite(s@, kind) =~= out@);
    out
}

/// The display form of a Slack message text: user, channel and user-group
/// mentions and labelled links rewritten in readable form.
pub fn resolve_slack_text(text: &str) -> (r: String)
    ensures
        r@ == resolved_text(text@),
{
    let s = chars_of(text);
    let a = rewrite_exec(&s, Markup::User);
    let b = rewrite_exec(&a, Markup::Channel);
    let c = rewrite_exec(&b, Markup::Subteam);
    let d = rewrite_exec(&c, Markup::Link);
    string_of(&d)
}

/// A lower-case hexadecimal digit.
pub open spec fn hex_digit(n: int) -> char {
    if n < 10 {
        (n + 48) as char
    } else {
        (n + 87) as char
    }
}

/// How `serde_json` writes one character inside a string literal: a quote and a
/// backslash are escaped with a backslash; backspace, tab, line feed, form feed and
/// carriage return get their short escapes; any other character below U+0020 is
/// written as `\u00` and two lower-case hexadecimal digits; every other character
/// is written as it is.
pub open spec fn json_escaped_char(c: char) -> Seq<char> {
    if c == '"' {
        seq!['\\', '"']
    } else if c == '\\' {
        seq!['\\', '\\']
    } else if c == '\u{8}' {
        seq!['\\', 'b']
    } else if c == '\t' {
        seq!['\\', 't']
    } else if c == '\n' {
        seq!['\\', 'n']
    } else if c == '\u{c}' {
        seq!['\\', 'f']
    } else if c == '\r' {
        seq!['\\', 'r']
    } else if (c as int) < 32 {
        seq!['\\', 'u', '0', '0', hex_digit((c as int) / 16), hex_digit((c as int) % 16)]
    } else {
        seq![c]
    }
}

/// The characters of a string, each written as `serde_json` writes it inside a
/// string literal.
pub open spec fn json_escaped(s: Seq<char>) -> Seq<char>
    decreases s.len(),
{
    if s.len() == 0 {
        seq![]
    } else {
        json_escaped(s.drop_last()) + json_escaped_char(s.last())
    }
}

/// The JSON string literal that `serde_json` writes for a string: the escaped
/// characters between double quotes.
pub open spec fn json_string_literal(s: Seq<char>) -> Seq<char> {
    seq!['"'] + json_escaped(s) + seq!['"']
}

/// Calls `serde_json::to_string` on a string slice. Trusted: the result is the JSON
/// string literal of the argument, as `json_string_literal` spells it out from
/// `serde_json`'s escape table and compact formatter. Serialising a `str` cannot
/// fail; should the serializer report an error anyway, the empty string is
/// returned.
#[verifier::external_body]
pub(crate) fn to_json_string_literal(s: &str) -> (r: String)
    ensures
        r@ == json_string_literal(s@),
{
    serde_json::to_string(s).unwrap_or_default()
}

/// The JSON object `{"text":...}` holding the display form of `text`.
pub open spec fn resolved_payload(text: Seq<char>) -> Seq<char> {
    "{\"text\":"@ + json_string_literal(resolved_text(text)) + "}"@
}

/// The stored payload of a message: a JSON object whose `text` field is the display
/// form of the text.
pub fn resolved_payload_json(text: &str) -> (r: String)
    ensures
        r@ == resolved_payload(text@),
{
    let resolved = resolve_slack_text(text);
    let lit = to_json_string_literal(resolved.as_str());
    let mut out = chars_of("{\"text\":");
    append_str(&mut out, lit.as_str());
    append_str(&mut out, "}");
    string_of(&out)
}

} // verus!
