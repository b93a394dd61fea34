//! Rendering the prompt that a task run receives.
use vstd::prelude::*;
use crate::db::models::Environment;
use crate::slack::thread_context::{
    AttachmentView, MessageView, NormalizedThread, NormalizedThreadAttachment, NormalizedThreadMessage,
    ThreadView,
};
use crate::text::{append_str, join, join_vecs, string_of, vecs_view};
use crate::workflows::loader::{WorkflowDefinition, WorkflowView};

verus! {

/// One attachment line: the file name, then its MIME type (or else its file type),
/// then `local_path=<path>` when a local copy exists, separated by ` | `.
pub open spec fn attachment_text(a: AttachmentView) -> Seq<char> {
    let kind: Seq<Seq<char>> = match a.mimetype {
        Some(m) => seq![m],
        None => match a.filetype {
            Some(f) => seq![f],
            None => seq![],
        },
    };
    let local: Seq<Seq<char>> = match a.local_path {
        Some(p) => seq!["local_path="@ + p],
        None => seq![],
    };
    join(seq![a.name] + kind + local, " | "@)
}

/// The attachment lines of a message, from position `i` on.
pub open spec fn attachment_lines(atts: Seq<AttachmentView>) -> Seq<char>
    decreases atts.len(),
{
    if atts.len() == 0 {
        seq![]
    } else {
        attachment_lines(atts.drop_last()) + "\n  - attachment: "@ + attachment_text(atts.last())
    }
}

/// A message block: `- <author>: <text>` and one line per attachment.
pub open spec fn message_block(m: MessageView) -> Seq<char> {
    "- "@ + m.author_label + ": "@ + m.text + attachment_lines(m.attachments)
}

/// The sections of a prompt: the workflow's name and instructions, the environment's
/// slug, repository and default branch, the workspace path, and the thread context.
pub open spec fn prompt_sections(
    workflow: Option<WorkflowView>,
    env: Option<(Seq<char>, Seq<char>, Seq<char>)>,
    thread: ThreadView,
    workspace_path: Seq<char>,
) -> Seq<Seq<char>> {
    let w: Seq<Seq<char>> = match workflow {
        Some(wf) => seq!["Workflow: "@ + wf.metadata.name + "\nInstructions:\n"@ + wf.prompt + "\n"@],
        None => seq![],
    };
    let e: Seq<Seq<char>> = match env {
        Some((slug, url, branch)) => seq![
            "Environment: "@ + slug + "\nRepo: "@ + url + "\nDefault branch: "@ + branch + "\n"@,
        ],
        None => seq![],
    };
    w + e + seq!["Workspace: "@ + workspace_path + "\n"@, "Slack thread context:"@] + thread.messages.map_values(
        |m: MessageView| message_block(m),
    )
}

/// The environment fields that a prompt shows.
pub open spec fn env_fields(environment: Option<&Environment>) -> Option<(Seq<char>, Seq<char>, Seq<char>)> {
    match environment {
        Some(e) => Some((e.slug@, e.git_ssh_url@, e.default_branch@)),
        None => None,
    }
}

/// The workflow, as a value.
pub open spec fn opt_workflow_view(workflow: Option<&WorkflowDefinition>) -> Option<WorkflowView> {
    match workflow {
        Some(w) => Some(w@),
        None => None,
    }
}

/// The rendered prompt: its sections joined by newlines.
pub open spec fn rendered_prompt(
    workflow: Option<WorkflowView>,
    env: Option<(Seq<char>, Seq<char>, Seq<char>)>,
    thread: ThreadView,
    workspace_path: Seq<char>,
) -> Seq<char> {
    join(prompt_sections(workflow, env, thread, workspace_path), "\n"@)
}

fn push_section(sections: &mut Vec<Vec<char>>, v: Vec<char>)
    ensures
        vecs_view(final(sections)@) == vecs_view(old(sections)@).push(v@),
{
    let ghost before = vecs_view(sections@);
    let ghost vv = v@;
    sections.push(v);
    assert(vecs_view(sections@) =~= before.push(vv));
}

/// Renders one attachment line.
pub fn render_attachment(attachment: &NormalizedThreadAttachment) -> (r: String)
    ensures
        r@ == attachment_text(attachment@),
{
    let mut parts: Vec<Vec<char>> = Vec::new();
    let mut name: Vec<char> = Vec::new();
    append_str(&mut name, attachment.name.as_str());
    assert(name@ =~= attachment.name@);
    push_section(&mut parts, name);
    let ghost p1 = vecs_view(parts@);
    if let Some(m) = &attachment.mimetype {
        let mut v: Vec<char> = Vec::new();
        append_str(&mut v, m.as_str());
        assert(v@ =~= m@);
        push_section(&mut parts, v);
    } else if let Some(f) = &attachment.filetype {
        let mut v: Vec<char> = Vec::new();
        append_str(&mut v, f.as_str());
        assert(v@ =~= f@);
        push_section(&mut parts, v);
    }
    if let Some(p) = &attachment.local_path {
        let mut v: Vec<char> = Vec::new();
        append_str(&mut v, "local_path=");
        append_str(&mut v, p.as_str());
        assert(v@ =~= "local_path="@ + p@);
        push_section(&mut parts, v);
    }
    let ghost a = attachment@;
    let ghost kind: Seq<Seq<char>> = match a.mimetype {
        Some(m) => seq![m],
        None => match a.filetype {
            Some(f) => seq![f],
            None => seq![],
        },
    };
    let ghost local: Seq<Seq<char>> = match a.local_path {
        Some(p) => seq!["local_path="@ + p],
        None => seq![],
    };
    assert(vecs_view(parts@) =~= seq![a.name] + kind + local);
    let mut sep: Vec<char> = Vec::new();
    append_str(&mut sep, " | ");
    assert(sep@ =~= " | "@);
    let joined = join_vecs(&parts, &sep);
    string_of(&joined)
}

fn render_message(message: &NormalizedThreadMessage) -> (r: Vec<char>)
    ensures
        r@ == message_block(message@),
{
    let mut block: Vec<char> = Vec::new();
    append_str(&mut block, "- ");
    append_str(&mut block, message.author_label.as_str());
    append_str(&mut block, ": ");
    append_str(&mut block, message.text.as_str());
    let ghost head = block@;
    let ghost atts = message@.attachments;
    let mut i: usize = 0;
    assert(atts.take(0) =~= seq![]);
    assert(block@ =~= head + attachment_lines(atts.take(0)));
    while i < message.attachments.len()
        invariant
            i <= message.attachments.len(),
            atts == message@.attachments,
            block@ == head + attachment_lines(atts.take(i as int)),
        decreases message.attachments.len() - i,
    {
        let line = render_attachment(&message.attachments[i]);
        let ghost before = block@;
        append_str(&mut block, "\n  - attachment: ");
        append_str(&mut block, line.as_str());
        proof {
            assert(atts.take(i + 1).drop_last() =~= atts.take(i as int));
            assert(atts.take(i + 1).last() == message.attachments@[i as int]@);
            assert(block@ =~= head + attachment_lines(atts.take(i + 1)));
        }
        i = i + 1;
    }
    assert(atts.take(message.attachments.len() as int) =~= atts);
    assert(block@ =~= message_block(message@));
    block
}

/// Renders the prompt for a task run from the chosen workflow, the environment,
/// the normalised thread and the workspace path.
pub fn render_prompt(
    workflow: Option<&WorkflowDefinition>,
    environment: Option<&Environment>,
    thread: &NormalizedThread,
    workspace_path: &str,
) -> (r: String)
    ensures
        r@ == rendered_prompt(opt_workflow_view(workflow), env_fields(environment), thread@, workspace_path@),
{
    let mut sections: Vec<Vec<char>> = Vec::new();
    if let Some(w) = workflow {
        let mut v: Vec<char> = Vec::new();
        append_str(&mut v, "Workflow: ");
        append_str(&mut v, w.metadata.name.as_str());
        append_str(&mut v, "\nInstructions:\n");
        append_str(&mut v, w.prompt.as_str());
        append_str(&mut v, "\n");
        push_section(&mut sections, v);
    }
    if let Some(e) = environment {
        let mut v: Vec<char> = Vec::new();
        append_str(&mut v, "Environment: ");
        append_str(&mut v, e.slug.as_str());
        append_str(&mut v, "\nRepo: ");
        append_str(&mut v, e.git_ssh_url.as_str());
        append_str(&mut v, "\nDefault branch: ");
        append_str(&mut v, e.default_branch.as_str());
        append_str(&mut v, "\n");
        push_section(&mut sections, v);
    }
    let mut ws: Vec<char> = Vec::new();
    append_str(&mut ws, "Workspace: ");
    append_str(&mut ws, workspace_path);
    append_str(&mut ws, "\n");
    push_section(&mut sections, ws);
    let mut ctx: Vec<char> = Vec::new();
    append_str(&mut ctx, "Slack thread context:");
    assert(ctx@ =~= "Slack thread context:"@);
    push_section(&mut sections, ctx);
    let ghost head = vecs_view(sections@);
    let ghost msgs = thread@.messages;
    let mut i: usize = 0;
    assert(msgs.take(0).map_values(|m: MessageView| message_block(m)) =~= seq![]);
    assert(head =~= head + msgs.take(0).map_values(|m: MessageView| message_block(m)));
    while i < thread.messages.len()
        invariant
            i <= thread.messages.len(),
            msgs == thread@.messages,
            vecs_view(sections@) == head + msgs.take(i as int).map_values(|m: MessageView| message_block(m)),
        decreases thread.messages.len() - i,
    {
        let block = render_message(&thread.messages[i]);
        push_section(&mut sections, block);
        proof {
            assert(msgs.take(i + 1) =~= msgs.take(i as int).push(thread.messages@[i as int]@));
            assert(msgs.take(i + 1).map_values(|m: MessageView| message_block(m)) =~= msgs.take(i as int).map_values(
                |m: MessageView| message_block(m),
            ).push(message_block(thread.messages@[i as int]@)));
            assert(vecs_view(sections@) =~= head + msgs.take(i + 1).map_values(|m: MessageView| message_block(m)));
        }
        i = i + 1;
    }
    assert(msgs.take(thread.messages.len() as int) =~= msgs);
    assert(vecs_view(sections@) =~= prompt_sections(opt_workflow_view(workflow), env_fields(environment), thread@, workspace_path@));
    let mut sep: Vec<char> = Vec::new();
    append_str(&mut sep, "\n");
    assert(sep@ =~= "\n"@);
    let joined = join_vecs(&sections, &sep);
    string_of(&joined)
}

} // verus!
