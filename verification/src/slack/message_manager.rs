//! Bot-posted Slack messages managed through their permalinks: parsing a permalink,
//! checking that a message belongs to the bot, and the message record handed out.
use vstd::prelude::*;
use url::Url;
use crate::slack::formatter::{resolve_slack_text, resolved_text};
use crate::slack::web_api::{SlackAuthIdentity, SlackFetchedMessage};
use crate::text::{chars_of, clone_opt, opt_view, str_eq, str_is_blank, string_of, trim, trim_string};

verus! {

/// A bot message, as the management endpoints hand it out.
#[derive(Debug)]
pub struct ManagedSlackMessage {
    pub channel_id: String,
    pub ts: String,
    pub thread_ts: Option<String>,
    pub text: String,
    pub raw_text: String,
    pub author_user_id: Option<String>,
    pub author_bot_id: Option<String>,
}

/// The message a permalink points to.
#[derive(Debug)]
pub struct SlackPermalinkTarget {
    pub channel_id: String,
    pub message_ts: String,
    pub thread_ts: Option<String>,
}

/// The value of a permalink target.
pub struct PermalinkTargetView {
    pub channel_id: Seq<char>,
    pub message_ts: Seq<char>,
    pub thread_ts: Option<Seq<char>>,
}

impl View for SlackPermalinkTarget {
    type V = PermalinkTargetView;

    open spec fn view(&self) -> PermalinkTargetView {
        PermalinkTargetView {
            channel_id: self.channel_id@,
            message_ts: self.message_ts@,
            thread_ts: opt_view(self.thread_ts),
        }
    }
}

/// Why a permalink was refused.
#[derive(Debug, Clone, Copy, PartialEq, Eq, Structural)]
pub enum PermalinkError {
    /// The link is blank.
    Missing,
    /// The link is not a URL with a path.
    Invalid,
    /// The path is not `/archives/<channel>/<message>`.
    NotAMessage,
    /// The message part is not `p` and sixteen digits.
    BadTimestamp,
}

impl PermalinkError {
    /// The text of the error.
    pub fn message(&self) -> (r: String)
        ensures
            r@ == permalink_error_text(*self),
    {
        match self {
            PermalinkError::Missing => "slack message link is required".to_string(),
            PermalinkError::Invalid => "invalid Slack message link".to_string(),
            PermalinkError::NotAMessage => "Slack link must point to a message permalink".to_string(),
            PermalinkError::BadTimestamp => "Slack link must include a valid message timestamp".to_string(),
        }
    }
}

pub open spec fn permalink_error_text(e: PermalinkError) -> Seq<char> {
    match e {
        PermalinkError::Missing => "slack message link is required"@,
        PermalinkError::Invalid => "invalid Slack message link"@,
        PermalinkError::NotAMessage => "Slack link must point to a message permalink"@,
        PermalinkError::BadTimestamp => "Slack link must include a valid message timestamp"@,
    }
}

pub open spec fn is_ascii_digit(c: char) -> bool {
    '0' <= c && c <= '9'
}

/// A message part of a permalink: `p` followed by exactly sixteen digits.
pub open spec fn is_message_id(id: Seq<char>) -> bool {
    &&& id.len() == 17
    &&& id[0] == 'p'
    &&& forall|i: int| 1 <= i < 17 ==> is_ascii_digit(#[trigger] id[i])
}

/// The Slack timestamp of a message part: its first ten digits, a dot, the last six.
pub open spec fn message_ts_of(id: Seq<char>) -> Seq<char> {
    id.subrange(1, 11) + seq!['.'] + id.subrange(11, 17)
}

/// The value of the first pair whose key is `key`.
pub open spec fn first_value(pairs: Seq<(Seq<char>, Seq<char>)>, key: Seq<char>) -> Option<Seq<char>>
    decreases pairs.len(),
{
    if pairs.len() == 0 {
        None
    } else if pairs[0].0 == key {
        Some(pairs[0].1)
    } else {
        first_value(pairs.drop_first(), key)
    }
}

/// The thread a permalink names: the first `thread_ts` query value, unless it is blank.
pub open spec fn thread_ts_of(pairs: Seq<(Seq<char>, Seq<char>)>) -> Option<Seq<char>> {
    match first_value(pairs, "thread_ts"@) {
        Some(v) => if trim(v).len() == 0 { None } else { Some(v) },
        None => None,
    }
}

/// What a permalink yields, from its path segments (`None` when the URL has no path
/// that can hold them) and its decoded query pairs.
pub open spec fn permalink_target(
    segments: Option<Seq<Seq<char>>>,
    pairs: Seq<(Seq<char>, Seq<char>)>,
) -> Result<PermalinkTargetView, PermalinkError> {
    match segments {
        None => Err(PermalinkError::Invalid),
        Some(s) => if s.len() < 3 || s[0] != "archives"@ {
            Err(PermalinkError::NotAMessage)
        } else if !is_message_id(s[2]) {
            Err(PermalinkError::BadTimestamp)
        } else {
            Ok(PermalinkTargetView {
                channel_id: s[1],
                message_ts: message_ts_of(s[2]),
                thread_ts: thread_ts_of(pairs),
            })
        },
    }
}

pub open spec fn pairs_view(v: Seq<(String, String)>) -> Seq<(Seq<char>, Seq<char>)> {
    v.map_values(|p: (String, String)| (p.0@, p.1@))
}

pub open spec fn segments_view(v: Option<Vec<String>>) -> Option<Seq<Seq<char>>> {
    match v {
        Some(s) => Some(s@.map_values(|x: String| x@)),
        None => None,
    }
}

pub open spec fn target_result_view(r: Result<SlackPermalinkTarget, PermalinkError>) -> Result<
    PermalinkTargetView,
    PermalinkError,
> {
    match r {
        Ok(t) => Ok(t@),
        Err(e) => Err(e),
    }
}

proof fn lemma_first_value_step(pairs: Seq<(Seq<char>, Seq<char>)>, key: Seq<char>, i: int)
    requires
        0 <= i < pairs.len(),
        pairs[i].0 != key,
    ensures
        first_value(pairs.subrange(i, pairs.len() as int), key) == first_value(
            pairs.subrange(i + 1, pairs.len() as int),
            key,
        ),
{
    assert(pairs.subrange(i, pairs.len() as int).drop_first() =~= pairs.subrange(
        i + 1,
        pairs.len() as int,
    ));
}

/// The `thread_ts` value of the query, when there is one and it is not blank.
fn query_thread_ts(query: &Vec<(String, String)>) -> (r: Option<String>)
    ensures
        opt_view(r) == thread_ts_of(pairs_view(query@)),
{
    let ghost pv = pairs_view(query@);
    assert(pv.subrange(0, pv.len() as int) =~= pv);
    let mut i: usize = 0;
    while i < query.len()
        invariant
            i <= query.len(),
            pv == pairs_view(query@),
            first_value(pv, "thread_ts"@) == first_value(
                pv.subrange(i as int, pv.len() as int),
                "thread_ts"@,
            ),
        decreases query.len() - i,
    {
        let key = &query[i].0;
        if str_eq(key.as_str(), "thread_ts") {
            let value = &query[i].1;
            assert(pv.subrange(i as int, pv.len() as int)[0] == pv[i as int]);
            if str_is_blank(value.as_str()) {
                return None;
            }
            return Some(value.clone());
        }
        proof {
            lemma_first_value_step(pv, "thread_ts"@, i as int);
        }
        i = i + 1;
    }
    assert(pv.subrange(i as int, pv.len() as int).len() == 0);
    None
}

/// The timestamp of a permalink's message part, when it is `p` and sixteen digits.
fn message_ts_from_id(id: &str) -> (r: Option<String>)
    ensures
        is_message_id(id@) ==> opt_view(r) == Some(message_ts_of(id@)),
        !is_message_id(id@) ==> r is None,
{
    let c = chars_of(id);
    if c.len() != 17 || c[0] != 'p' {
        return None;
    }
    let mut i: usize = 1;
    while i < 17
        invariant
            1 <= i <= 17,
            c@ == id@,
            c@.len() == 17,
            forall|j: int| 1 <= j < i ==> is_ascii_digit(#[trigger] c@[j]),
        decreases 17 - i,
    {
        if !('0' <= c[i] && c[i] <= '9') {
            return None;
        }
        i = i + 1;
    }
    let mut ts: Vec<char> = Vec::new();
    let mut k: usize = 1;
    while k < 11
        invariant
            1 <= k <= 11,
            c@.len() == 17,
            ts@ == c@.subrange(1, k as int),
        decreases 11 - k,
    {
        ts.push(c[k]);
        k = k + 1;
    }
    ts.push('.');
    while k < 17
        invariant
            11 <= k <= 17,
            c@.len() == 17,
            ts@ == c@.subrange(1, 11) + seq!['.'] + c@.subrange(11, k as int),
        decreases 17 - k,
    {
        ts.push(c[k]);
        k = k + 1;
    }
    Some(string_of(&ts))
}

/// The target of a permalink, from the path segments and query pairs of its URL.
pub fn permalink_target_from_parts(
    segments: Option<Vec<String>>,
    query: &Vec<(String, String)>,
) -> (r: Result<SlackPermalinkTarget, PermalinkError>)
    ensures
        target_result_view(r) == permalink_target(segments_view(segments), pairs_view(query@)),
{
    let ghost sv = segments_view(segments);
    match &segments {
        None => Err(PermalinkError::Invalid),
        Some(s) => {
            assert(sv == Some(s@.map_values(|x: String| x@)));
            if s.len() < 3 || !str_eq(s[0].as_str(), "archives") {
                return Err(PermalinkError::NotAMessage);
            }
            let ts = message_ts_from_id(s[2].as_str());
            match ts {
                None => Err(PermalinkError::BadTimestamp),
                Some(message_ts) => {
                    let thread_ts = query_thread_ts(query);
                    Ok(SlackPermalinkTarget { channel_id: s[1].clone(), message_ts, thread_ts })
                },
            }
        },
    }
}

/// Whether `url::Url::parse` accepts a text.
pub uninterp spec fn url_parse_accepts(s: Seq<char>) -> bool;

/// The path segments that `url::Url::path_segments` gives for the URL parsed from a
/// text; `None` for a URL that cannot be a base.
pub uninterp spec fn url_segments_of(s: Seq<char>) -> Option<Seq<Seq<char>>>;

/// The decoded query pairs, in order, that `url::Url::query_pairs` gives for the URL
/// parsed from a text.
pub uninterp spec fn url_query_of(s: Seq<char>) -> Seq<(Seq<char>, Seq<char>)>;

/// Parses a text with `url::Url::parse` and reads the parsed URL's path segments
/// (`Url::path_segments`, each copied) and decoded query pairs (`Url::query_pairs`,
/// each copied, in order). Trusted: a URL comes back exactly when the parser accepts
/// the text, and then its segments and pairs are those named for the text; each of
/// the three depends on the text alone. The parse error itself is dropped.
#[verifier::external_body]
fn url_parts(s: &str) -> (r: Option<(Option<Vec<String>>, Vec<(String, String)>)>)
    ensures
        r is Some == url_parse_accepts(s@),
        r matches Some((segments, pairs)) ==> segments_view(segments) == url_segments_of(s@) && pairs_view(pairs@)
            == url_query_of(s@),
{
    let url = Url::parse(s).ok()?;
    let segments = url.path_segments().map(|parts| parts.map(|p| p.to_string()).collect());
    let pairs = url.query_pairs().map(|(k, v)| (k.into_owned(), v.into_owned())).collect();
    Some((segments, pairs))
}

/// The message a Slack permalink points to. A blank link is `Missing`; one that is
/// not a URL is `Invalid`; otherwise the path segments and query pairs of the URL
/// decide, as `permalink_target` says.
pub fn parse_slack_permalink(permalink: &str) -> (r: Result<SlackPermalinkTarget, PermalinkError>)
    ensures
        trim(permalink@).len() == 0 ==> r == Err::<SlackPermalinkTarget, PermalinkError>(
            PermalinkError::Missing,
        ),
        trim(permalink@).len() != 0 && !url_parse_accepts(trim(permalink@)) ==> r == Err::<
            SlackPermalinkTarget,
            PermalinkError,
        >(PermalinkError::Invalid),
        trim(permalink@).len() != 0 && url_parse_accepts(trim(permalink@)) ==> target_result_view(r)
            == permalink_target(url_segments_of(trim(permalink@)), url_query_of(trim(permalink@))),
{
    let trimmed = trim_string(permalink);
    if trimmed.as_str().is_empty() {
        return Err(PermalinkError::Missing);
    }
    match url_parts(trimmed.as_str()) {
        None => Err(PermalinkError::Invalid),
        Some((segments, query)) => permalink_target_from_parts(segments, &query),
    }
}

/// Why a message may not be managed.
#[derive(Debug, Clone, Copy, PartialEq, Eq, Structural)]
pub enum OwnershipError {
    NotPostedByBot,
}

impl OwnershipError {
    /// The text of the error.
    pub fn message(&self) -> (r: String)
        ensures
            r@ == "message was not posted by the bot configured via SLACK_BOT_TOKEN"@,
    {
        "message was not posted by the bot configured via SLACK_BOT_TOKEN".to_string()
    }
}

/// A message belongs to the bot when its author is the bot user, or when both the
/// message and the bot identity carry a bot id and the two are the same.
pub open spec fn owned_by_bot(
    user: Option<Seq<char>>,
    bot_id: Option<Seq<char>>,
    identity_user: Seq<char>,
    identity_bot: Option<Seq<char>>,
) -> bool {
    user == Some(identity_user) || (identity_bot is Some && bot_id is Some && identity_bot
        == bot_id)
}

fn opt_str_eq(a: &Option<String>, b: &Option<String>) -> (r: bool)
    ensures
        r == (opt_view(*a) == opt_view(*b)),
{
    match (a, b) {
        (Some(x), Some(y)) => str_eq(x.as_str(), y.as_str()),
        (None, None) => true,
        _ => false,
    }
}

/// Refuses a message that the bot did not post.
pub fn ensure_message_owned_by_bot(
    message: &SlackFetchedMessage,
    identity: &SlackAuthIdentity,
) -> (r: Result<(), OwnershipError>)
    ensures
        r is Ok <==> owned_by_bot(
            opt_view(message.user),
            opt_view(message.bot_id),
            identity.user_id@,
            opt_view(identity.bot_id),
        ),
{
    let is_bot_user = match &message.user {
        Some(u) => str_eq(u.as_str(), identity.user_id.as_str()),
        None => false,
    };
    let is_bot_id = identity.bot_id.is_some() && message.bot_id.is_some() && opt_str_eq(
        &identity.bot_id,
        &message.bot_id,
    );
    if is_bot_user || is_bot_id {
        Ok(())
    } else {
        Err(OwnershipError::NotPostedByBot)
    }
}

pub open spec fn text_or_empty(t: Option<Seq<char>>) -> Seq<char> {
    match t {
        Some(s) => s,
        None => seq![],
    }
}

/// The record handed out for a fetched message of a channel: its display text
/// resolves Slack markup, its raw text is the text as Slack holds it (empty when
/// there is none).
pub fn managed_message(channel_id: &str, message: &SlackFetchedMessage) -> (r: ManagedSlackMessage)
    ensures
        r.channel_id@ == channel_id@,
        r.ts@ == message.ts@,
        opt_view(r.thread_ts) == opt_view(message.thread_ts),
        r.raw_text@ == text_or_empty(opt_view(message.text)),
        r.text@ == resolved_text(text_or_empty(opt_view(message.text))),
        opt_view(r.author_user_id) == opt_view(message.user),
        opt_view(r.author_bot_id) == opt_view(message.bot_id),
{
    let raw_text = match &message.text {
        Some(t) => t.clone(),
        None => String::new(),
    };
    let text = resolve_slack_text(raw_text.as_str());
    ManagedSlackMessage {
        channel_id: channel_id.to_string(),
        ts: message.ts.clone(),
        thread_ts: clone_opt(&message.thread_ts),
        text,
        raw_text,
        author_user_id: clone_opt(&message.user),
        author_bot_id: clone_opt(&message.bot_id),
    }
}

/// Why an edit was refused.
#[derive(Debug, Clone, Copy, PartialEq, Eq, Structural)]
pub enum MessageEditError {
    EmptyText,
}

impl MessageEditError {
    /// The text of the error.
    pub fn message(&self) -> (r: String)
        ensures
            r@ == "message text cannot be empty"@,
    {
        "message text cannot be empty".to_string()
    }
}

/// The text a message is updated to: the requested text trimmed, refused when
/// nothing is left.
pub fn updated_message_text(text: &str) -> (r: Result<String, MessageEditError>)
    ensures
        trim(text@).len() == 0 ==> r == Err::<String, MessageEditError>(MessageEditError::EmptyText),
        trim(text@).len() != 0 ==> (r is Ok && r->Ok_0@ == trim(text@)),
{
    let t = trim_string(text);
    if t.as_str().is_empty() {
        Err(MessageEditError::EmptyText)
    } else {
        Ok(t)
    }
}

} // verus!
