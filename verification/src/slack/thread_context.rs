//! Normalising the replies of a Slack thread into the context given to a task.
use vstd::prelude::*;
use crate::slack::formatter::{resolve_slack_text, resolved_text};
use crate::text::{chars_of, clone_opt, is_blank, opt_view, trim};

verus! {

/// A file attached to a Slack message, as the Slack API reports it.
#[derive(Debug, PartialEq, Eq)]
pub struct SlackThreadFile {
    pub id: Option<String>,
    pub name: Option<String>,
    pub mimetype: Option<String>,
    pub filetype: Option<String>,
    pub url_private: Option<String>,
    pub url_private_download: Option<String>,
}

/// A file attached to a thread message, as given to a task.
#[derive(Debug, PartialEq, Eq)]
pub struct NormalizedThreadAttachment {
    pub id: Option<String>,
    pub name: String,
    pub mimetype: Option<String>,
    pub filetype: Option<String>,
    pub download_url: Option<String>,
    pub local_path: Option<String>,
}

/// A thread message, as given to a task.
#[derive(Debug)]
pub struct NormalizedThreadMessage {
    pub ts: String,
    pub author_id: Option<String>,
    pub author_label: String,
    pub text: String,
    pub attachments: Vec<NormalizedThreadAttachment>,
}

/// A Slack thread, as given to a task.
#[derive(Debug)]
pub struct NormalizedThread {
    pub channel_id: String,
    pub thread_ts: String,
    pub messages: Vec<NormalizedThreadMessage>,
}

/// A reply of a thread, as the Slack API reports it.
#[derive(Debug)]
pub struct SlackReplyMessage {
    pub ts: String,
    pub user: Option<String>,
    pub bot_id: Option<String>,
    pub text: Option<String>,
    pub files: Vec<SlackThreadFile>,
}

/// The value of an attachment.
pub struct AttachmentView {
    pub id: Option<Seq<char>>,
    pub name: Seq<char>,
    pub mimetype: Option<Seq<char>>,
    pub filetype: Option<Seq<char>>,
    pub download_url: Option<Seq<char>>,
    pub local_path: Option<Seq<char>>,
}

/// The value of a thread message.
pub struct MessageView {
    pub ts: Seq<char>,
    pub author_id: Option<Seq<char>>,
    pub author_label: Seq<char>,
    pub text: Seq<char>,
    pub attachments: Seq<AttachmentView>,
}

/// The value of a thread.
pub struct ThreadView {
    pub channel_id: Seq<char>,
    pub thread_ts: Seq<char>,
    pub messages: Seq<MessageView>,
}

impl View for NormalizedThreadAttachment {
    type V = AttachmentView;

    open spec fn view(&self) -> AttachmentView {
        AttachmentView {
            id: opt_view(self.id),
            name: self.name@,
            mimetype: opt_view(self.mimetype),
            filetype: opt_view(self.filetype),
            download_url: opt_view(self.download_url),
            local_path: opt_view(self.local_path),
        }
    }
}

impl View for NormalizedThreadMessage {
    type V = MessageView;

    open spec fn view(&self) -> MessageView {
        MessageView {
            ts: self.ts@,
            author_id: opt_view(self.author_id),
            author_label: self.author_label@,
            text: self.text@,
            attachments: self.attachments@.map_values(|a: NormalizedThreadAttachment| a@),
        }
    }
}

impl View for NormalizedThread {
    type V = ThreadView;

    open spec fn view(&self) -> ThreadView {
        ThreadView {
            channel_id: self.channel_id@,
            thread_ts: self.thread_ts@,
            messages: self.messages@.map_values(|m: NormalizedThreadMessage| m@),
        }
    }
}

/// The first of two optional values that is present.
pub open spec fn or_opt(a: Option<Seq<char>>, b: Option<Seq<char>>) -> Option<Seq<char>> {
    if a is Some {
        a
    } else {
        b
    }
}

/// The attachment that a Slack file becomes: a blank or missing name becomes
/// `attachment`, the download URL prefers `url_private_download` over `url_private`,
/// and no local copy is known yet.
pub open spec fn normalized_attachment(f: SlackThreadFile) -> AttachmentView {
    AttachmentView {
        id: opt_view(f.id),
        name: match f.name {
            Some(n) => if trim(n@).len() != 0 {
                n@
            } else {
                "attachment"@
            },
            None => "attachment"@,
        },
        mimetype: opt_view(f.mimetype),
        filetype: opt_view(f.filetype),
        download_url: or_opt(opt_view(f.url_private_download), opt_view(f.url_private)),
        local_path: None,
    }
}

/// The message that a Slack reply becomes: its author label is the user id, else
/// the bot id, else `system`; its text is shown in display form.
pub open spec fn normalized_message(m: SlackReplyMessage) -> MessageView {
    MessageView {
        ts: m.ts@,
        author_id: opt_view(m.user),
        author_label: match or_opt(opt_view(m.user), opt_view(m.bot_id)) {
            Some(l) => l,
            None => "system"@,
        },
        text: resolved_text(
            match m.text {
                Some(t) => t@,
                None => seq![],
            },
        ),
        attachments: m.files@.map_values(|f: SlackThreadFile| normalized_attachment(f)),
    }
}

fn normalize_file(f: &SlackThreadFile) -> (r: NormalizedThreadAttachment)
    ensures
        r@ == normalized_attachment(*f),
{
    let name = match &f.name {
        Some(n) => {
            let nv = chars_of(n.as_str());
            if !is_blank(&nv) {
                n.clone()
            } else {
                "attachment".to_owned()
            }
        },
        None => "attachment".to_owned(),
    };
    let download_url = match &f.url_private_download {
        Some(u) => Some(u.clone()),
        None => clone_opt(&f.url_private),
    };
    NormalizedThreadAttachment {
        id: clone_opt(&f.id),
        name,
        mimetype: clone_opt(&f.mimetype),
        filetype: clone_opt(&f.filetype),
        download_url,
        local_path: None,
    }
}

fn normalize_message(m: &SlackReplyMessage) -> (r: NormalizedThreadMessage)
    ensures
        r@ == normalized_message(*m),
{
    let author_label = match &m.user {
        Some(u) => u.clone(),
        None => match &m.bot_id {
            Some(b) => b.clone(),
            None => "system".to_owned(),
        },
    };
    let text = match &m.text {
        Some(t) => resolve_slack_text(t.as_str()),
        None => {
            let r = resolve_slack_text("");
            proof {
                reveal_strlit("");
            }
            r
        },
    };
    let mut attachments: Vec<NormalizedThreadAttachment> = Vec::new();
    let mut i: usize = 0;
    while i < m.files.len()
        invariant
            i <= m.files.len(),
            attachments@.map_values(|a: NormalizedThreadAttachment| a@)
                == m.files@.take(i as int).map_values(|f: SlackThreadFile| normalized_attachment(f)),
        decreases m.files.len() - i,
    {
        let a = normalize_file(&m.files[i]);
        let ghost before = attachments@;
        attachments.push(a);
        proof {
            assert(m.files@.take(i + 1) =~= m.files@.take(i as int).push(m.files@[i as int]));
            assert(attachments@ =~= before.push(a));
            assert(attachments@.map_values(|a: NormalizedThreadAttachment| a@) =~= before.map_values(|a: NormalizedThreadAttachment| a@).push(a@));
            assert(m.files@.take(i + 1).map_values(|f: SlackThreadFile| normalized_attachment(f)) =~= m.files@.take(i as int).map_values(|f: SlackThreadFile| normalized_attachment(f)).push(normalized_attachment(m.files@[i as int])));
            assert(attachments@.map_values(|a: NormalizedThreadAttachment| a@)
                =~= m.files@.take(i + 1).map_values(|f: SlackThreadFile| normalized_attachment(f)));
        }
        i = i + 1;
    }
    assert(m.files@.take(m.files.len() as int) =~= m.files@);
    NormalizedThreadMessage {
        ts: m.ts.clone(),
        author_id: clone_opt(&m.user),
        author_label,
        text,
        attachments,
    }
}

/// The value of the thread that `normalize_thread` builds.
pub open spec fn normalized_thread(channel_id: Seq<char>, thread_ts: Seq<char>, messages: Seq<SlackReplyMessage>) -> ThreadView {
    ThreadView {
        channel_id,
        thread_ts,
        messages: messages.map_values(|m: SlackReplyMessage| normalized_message(m)),
    }
}

/// Normalises the replies of a thread, message by message and in order.
/// It always succeeds.
pub fn normalize_thread(channel_id: &str, thread_ts: &str, messages: Vec<SlackReplyMessage>) -> (r: Result<NormalizedThread, String>)
    ensures
        r matches Ok(t) && t@ == normalized_thread(channel_id@, thread_ts@, messages@),
{
    let mut out: Vec<NormalizedThreadMessage> = Vec::new();
    let mut i: usize = 0;
    while i < messages.len()
        invariant
            i <= messages.len(),
            out@.map_values(|m: NormalizedThreadMessage| m@)
                == messages@.take(i as int).map_values(|m: SlackReplyMessage| normalized_message(m)),
        decreases messages.len() - i,
    {
        let m = normalize_message(&messages[i]);
        let ghost before = out@;
        out.push(m);
        proof {
            assert(messages@.take(i + 1) =~= messages@.take(i as int).push(messages@[i as int]));
            assert(out@ =~= before.push(m));
            assert(out@.map_values(|m: NormalizedThreadMessage| m@) =~= before.map_values(|m: NormalizedThreadMessage| m@).push(m@));
            assert(messages@.take(i + 1).map_values(|m: SlackReplyMessage| normalized_message(m)) =~= messages@.take(i as int).map_values(|m: SlackReplyMessage| normalized_message(m)).push(normalized_message(messages@[i as int])));
            assert(out@.map_values(|m: NormalizedThreadMessage| m@)
                =~= messages@.take(i + 1).map_values(|m: SlackReplyMessage| normalized_message(m)));
        }
        i = i + 1;
    }
    assert(messages@.take(messages.len() as int) =~= messages@);
    Ok(NormalizedThread { channel_id: channel_id.to_owned(), thread_ts: thread_ts.to_owned(), messages: out })
}

} // verus!
