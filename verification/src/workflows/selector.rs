//! Asking a model to choose a workflow: which workflows are eligible, the prompt
//! that describes them, and how the model's answer is read.
use vstd::prelude::*;
use crate::db::models::Environment;
use crate::slack::thread_context::{MessageView, NormalizedThread, NormalizedThreadMessage, ThreadView};
use crate::text::{
    all_ws, append_slice, append_str, chars_of, chars_of_string, collapse_whitespace, collapse_ws,
    contains, eq_ignore_ascii_case, eq_ignore_case, is_blank, join, join_vecs, lowercase, str_contains,
    str_eq, string_of, take_chars, take_prefix, to_lowercase, trim, trim_vec, vecs_view, strings_view,
};
use crate::workflows::loader::{
    clone_workflow, workflows_view, WorkflowDefinition, WorkflowRegistry, WorkflowView,
};
use crate::workflows::matcher::env_slug_of;
use crate::config::{join_path, path_join};
use crate::workspaces::session_workspace::{is_v4_uuid_text, new_uuid};

verus! {

/// Whether a workflow may be offered for a request in the given environment:
/// global workflows always, environment workflows only in their own environment.
pub open spec fn selectable(w: WorkflowView, env_slug: Option<Seq<char>>) -> bool {
    if w.metadata.scope == "global"@ {
        true
    } else if w.metadata.scope == "environment"@ {
        env_slug is Some && w.metadata.environment_slug == env_slug
    } else {
        false
    }
}

/// The workflows that may be offered, in registry order.
pub open spec fn selectable_workflows(ws: Seq<WorkflowView>, env_slug: Option<Seq<char>>) -> Seq<WorkflowView> {
    ws.filter(|w: WorkflowView| selectable(w, env_slug))
}

/// The workflows that may be offered for a request in the given environment.
pub fn eligible_workflows(registry: &WorkflowRegistry, environment: Option<&Environment>) -> (r: Vec<WorkflowDefinition>)
    ensures
        workflows_view(r@) == selectable_workflows(registry.ordered(), env_slug_of(environment)),
{
    let all = registry.all();
    let ghost ws = registry.ordered();
    let ghost env_slug = env_slug_of(environment);
    let mut out: Vec<WorkflowDefinition> = Vec::new();
    let mut i: usize = 0;
    assert(ws.take(0) =~= seq![]);
    while i < all.len()
        invariant
            i <= all.len(),
            workflows_view(all@) == ws,
            env_slug == env_slug_of(environment),
            workflows_view(out@) == ws.take(i as int).filter(|w: WorkflowView| selectable(w, env_slug)),
        decreases all.len() - i,
    {
        let w = &all[i];
        assert(ws[i as int] == w@);
        let keep = if str_eq(w.metadata.scope.as_str(), "global") {
            true
        } else if str_eq(w.metadata.scope.as_str(), "environment") {
            match environment {
                Some(env) => match &w.metadata.environment_slug {
                    Some(slug) => str_eq(slug.as_str(), env.slug.as_str()),
                    None => false,
                },
                None => false,
            }
        } else {
            false
        };
        assert(keep == selectable(w@, env_slug));
        proof {
            assert(ws.take(i + 1).drop_last() =~= ws.take(i as int));
            reveal_with_fuel(Seq::filter, 1);
        }
        if keep {
            let ghost before = workflows_view(out@);
            out.push(clone_workflow(w));
            assert(workflows_view(out@) =~= before.push(w@));
        }
        i = i + 1;
    }
    assert(ws.take(all.len() as int) =~= ws);
    out
}

/// Whether a message text looks like a link preview that GitHub posted.
pub open spec fn is_link_unfurl(text: Seq<char>) -> bool {
    let lower = lowercase(text);
    contains(lower, "added by github"@) || contains(lower, "show more"@) || (contains(
        lower,
        "please go through this checklist before your merge the pr"@,
    ) && contains(lower, "added by github"@))
}

/// Whether a message text looks like a link preview that GitHub posted.
pub fn looks_like_link_unfurl(text: &str) -> (r: bool)
    ensures
        r == is_link_unfurl(text@),
{
    let lower = to_lowercase(text);
    str_contains(lower.as_str(), "added by github") || str_contains(lower.as_str(), "show more") || (
    str_contains(lower.as_str(), "please go through this checklist before your merge the pr")
        && str_contains(lower.as_str(), "added by github"))
}

/// The whitespace-collapsed text, cut to `limit` characters with a trailing `…`
/// when it is longer.
pub open spec fn compacted(text: Seq<char>, limit: int) -> Seq<char> {
    let c = collapse_ws(text);
    if c.len() <= limit {
        c
    } else {
        take_chars(c, if limit >= 1 { limit - 1 } else { 0 }) + seq!['…']
    }
}

/// Collapses whitespace and shortens the text to at most `limit` characters.
pub fn compact_text(text: &str, limit: usize) -> (r: String)
    ensures
        r@ == compacted(text@, limit as int),
{
    let v = chars_of(text);
    let collapsed = collapse_whitespace(&v);
    if collapsed.len() <= limit {
        string_of(&collapsed)
    } else {
        let mut out = take_prefix(&collapsed, limit.saturating_sub(1));
        out.push('…');
        string_of(&out)
    }
}

/// A message counts as context when a user wrote it, it is not blank, and it is
/// not a link preview.
pub open spec fn relevant(m: MessageView) -> bool {
    m.author_id is Some && !all_ws(m.text) && !is_link_unfurl(m.text)
}

/// The last four relevant messages of a thread, in order.
pub open spec fn recent_relevant(thread: ThreadView) -> Seq<MessageView> {
    let r = thread.messages.filter(|m: MessageView| relevant(m));
    if r.len() > 4 {
        r.skip(r.len() - 4)
    } else {
        r
    }
}

/// The positions of the last four relevant messages of a thread.
pub fn recent_relevant_messages(thread: &NormalizedThread) -> (r: Vec<usize>)
    ensures
        r@.len() <= 4,
        forall|k: int| 0 <= k < r@.len() ==> #[trigger] r@[k] < thread.messages@.len(),
        r@.map_values(|i: usize| thread@.messages[i as int]) == recent_relevant(thread@),
{
    let ghost msgs = thread@.messages;
    let mut idx: Vec<usize> = Vec::new();
    let mut i: usize = 0;
    assert(msgs.take(0).filter(|m: MessageView| relevant(m)) =~= seq![]);
    while i < thread.messages.len()
        invariant
            i <= thread.messages.len(),
            msgs == thread@.messages,
            forall|k: int| 0 <= k < idx@.len() ==> #[trigger] idx@[k] < i,
            idx@.map_values(|j: usize| msgs[j as int]) == msgs.take(i as int).filter(|m: MessageView| relevant(m)),
        decreases thread.messages.len() - i,
    {
        let m = &thread.messages[i];
        assert(msgs[i as int] == m@);
        let tv = chars_of(m.text.as_str());
        let keep = m.author_id.is_some() && !is_blank(&tv) && !looks_like_link_unfurl(m.text.as_str());
        proof {
            assert(msgs.take(i + 1).drop_last() =~= msgs.take(i as int));
            reveal_with_fuel(Seq::filter, 1);
        }
        if keep {
            let ghost before = idx@;
            idx.push(i);
            assert(idx@.map_values(|j: usize| msgs[j as int]) =~= before.map_values(|j: usize| msgs[j as int]).push(msgs[i as int]));
        }
        i = i + 1;
    }
    assert(msgs.take(thread.messages.len() as int) =~= msgs);
    let ghost all_idx = idx@;
    if idx.len() > 4 {
        let n = idx.len();
        let mut out: Vec<usize> = Vec::new();
        let mut k = n - 4;
        while k < n
            invariant
                n - 4 <= k <= n,
                n > 4,
                n == idx@.len(),
                idx@ == all_idx,
                forall|t: int| 0 <= t < all_idx.len() ==> #[trigger] all_idx[t] < msgs.len(),
                out@ == all_idx.subrange(n - 4, k as int),
            decreases n - k,
        {
            out.push(idx[k]);
            assert(all_idx.subrange(n - 4, k + 1) =~= all_idx.subrange(n - 4, k as int).push(all_idx[k as int]));
            k = k + 1;
        }
        proof {
            let f = |j: usize| msgs[j as int];
            let r = msgs.filter(|m: MessageView| relevant(m));
            assert(all_idx.map_values(f) == r);
            assert(out@.map_values(f) =~= r.skip(r.len() - 4));
        }
        out
    } else {
        idx
    }
}

/// The thread-context lines of the selection prompt for the given messages.
pub open spec fn context_lines(ms: Seq<MessageView>) -> Seq<char>
    decreases ms.len(),
{
    if ms.len() == 0 {
        seq![]
    } else {
        let m = ms.last();
        context_lines(ms.drop_last()) + "- "@ + m.author_label + ": "@ + compacted(m.text, 220) + "\n"@ + (if m.attachments.len()
            == 0 {
            seq![]
        } else {
            "  attachments: "@ + compacted(
                join(m.attachments.map_values(|a: crate::slack::thread_context::AttachmentView| a.name), ", "@),
                220,
            ) + "\n"@
        })
    }
}

/// The description of one workflow in the selection prompt.
pub open spec fn workflow_entry(w: WorkflowView) -> Seq<char> {
    "- id: "@ + w.metadata.id + "\n  name: "@ + w.metadata.name + "\n  scope: "@ + w.metadata.scope
        + "\n  environment_slug: "@ + (match w.metadata.environment_slug {
        Some(s) => s,
        None => seq![],
    }) + "\n  trigger_phrases: "@ + join(w.metadata.trigger_phrases, ", "@) + "\n  summary: "@ + compacted(
        join(w.metadata.instructions, " "@),
        180,
    ) + "\n"@
}

/// The descriptions of the given workflows.
pub open spec fn workflow_entries(ws: Seq<WorkflowView>) -> Seq<char>
    decreases ws.len(),
{
    if ws.len() == 0 {
        seq![]
    } else {
        workflow_entries(ws.drop_last()) + workflow_entry(ws.last())
    }
}

/// The opening instructions of the selection prompt.
pub open spec fn selector_preamble() -> Seq<char> {
    "Choose the single best workflow for this Slack thread.\nYou may only choose one of the listed workflow IDs or NONE.\nRespond with exactly one token: either the workflow ID or NONE.\nDo not explain your choice.\n\n"@
}

/// The selection prompt: instructions, the resolved environment, the latest request,
/// the recent thread context and the candidate workflows.
pub open spec fn selector_prompt(
    candidates: Seq<WorkflowView>,
    request_text: Seq<char>,
    thread: ThreadView,
    env: Option<(Seq<char>, Seq<char>)>,
) -> Seq<char> {
    selector_preamble() + (match env {
        Some((slug, name)) => "Resolved environment: "@ + slug + " ("@ + name + ")\n\n"@,
        None => "Resolved environment: none\n\n"@,
    }) + "Latest request: "@ + compacted(request_text, 320) + "\n\n"@ + "Recent thread context:\n"@ + context_lines(
        recent_relevant(thread),
    ) + "\n"@ + "Available workflows:\n"@ + workflow_entries(candidates)
}

/// The slug and name of the environment, if any.
pub open spec fn env_slug_name(environment: Option<&Environment>) -> Option<(Seq<char>, Seq<char>)> {
    match environment {
        Some(e) => Some((e.slug@, e.name@)),
        None => None,
    }
}

fn join_strings_to(out: &mut Vec<char>, parts: &Vec<String>, sep: &str)
    ensures
        final(out)@ == old(out)@ + join(crate::text::strings_view(parts@), sep@),
{
    let mut vs: Vec<Vec<char>> = Vec::new();
    let mut i: usize = 0;
    while i < parts.len()
        invariant
            i <= parts.len(),
            vecs_view(vs@) == crate::text::strings_view(parts@).take(i as int),
        decreases parts.len() - i,
    {
        let ghost before = vecs_view(vs@);
        let v = chars_of(parts[i].as_str());
        vs.push(v);
        assert(vecs_view(vs@) =~= before.push(parts@[i as int]@));
        assert(crate::text::strings_view(parts@).take(i + 1) =~= crate::text::strings_view(parts@).take(i as int).push(
            parts@[i as int]@,
        ));
        i = i + 1;
    }
    assert(crate::text::strings_view(parts@).take(parts.len() as int) =~= crate::text::strings_view(parts@));
    let sv = chars_of(sep);
    let joined = join_vecs(&vs, &sv);
    append_slice(out, &joined);
}

fn push_context_line(out: &mut Vec<char>, m: &NormalizedThreadMessage)
    ensures
        final(out)@ == old(out)@ + context_lines(seq![m@]),
{
    let ghost start = out@;
    append_str(out, "- ");
    append_str(out, m.author_label.as_str());
    append_str(out, ": ");
    let t = compact_text(m.text.as_str(), 220);
    append_str(out, t.as_str());
    append_str(out, "\n");
    if m.attachments.len() > 0 {
        let mut names: Vec<Vec<char>> = Vec::new();
        let mut i: usize = 0;
        let ghost an = m@.attachments.map_values(|a: crate::slack::thread_context::AttachmentView| a.name);
        while i < m.attachments.len()
            invariant
                i <= m.attachments.len(),
                an == m@.attachments.map_values(|a: crate::slack::thread_context::AttachmentView| a.name),
                vecs_view(names@) == an.take(i as int),
            decreases m.attachments.len() - i,
        {
            let ghost before = vecs_view(names@);
            let v = chars_of(m.attachments[i].name.as_str());
            names.push(v);
            assert(vecs_view(names@) =~= before.push(an[i as int]));
            assert(an.take(i + 1) =~= an.take(i as int).push(an[i as int]));
            i = i + 1;
        }
        assert(an.take(m.attachments.len() as int) =~= an);
        let sep = chars_of(", ");
        let joined = join_vecs(&names, &sep);
        let js = string_of(&joined);
        let c = compact_text(js.as_str(), 220);
        append_str(out, "  attachments: ");
        append_str(out, c.as_str());
        append_str(out, "\n");
    }
    proof {
        let ms = seq![m@];
        assert(ms.drop_last() =~= Seq::<MessageView>::empty());
        assert(ms.last() == m@);
        assert(context_lines(Seq::<MessageView>::empty()) =~= Seq::<char>::empty());
    }
    assert(out@ =~= start + context_lines(seq![m@]));
}

proof fn lemma_context_lines_push(ms: Seq<MessageView>, m: MessageView)
    ensures
        context_lines(ms.push(m)) == context_lines(ms) + context_lines(seq![m]),
{
    assert(ms.push(m).drop_last() =~= ms);
    assert(seq![m].drop_last() =~= seq![]);
    assert(context_lines(seq![m].drop_last()) == Seq::<char>::empty());
    assert(context_lines(ms.push(m)) =~= context_lines(ms) + context_lines(seq![m]));
}

fn push_workflow_entry(out: &mut Vec<char>, w: &WorkflowDefinition)
    ensures
        final(out)@ == old(out)@ + workflow_entry(w@),
{
    let ghost start = out@;
    append_str(out, "- id: ");
    append_str(out, w.metadata.id.as_str());
    append_str(out, "\n  name: ");
    append_str(out, w.metadata.name.as_str());
    append_str(out, "\n  scope: ");
    append_str(out, w.metadata.scope.as_str());
    append_str(out, "\n  environment_slug: ");
    match &w.metadata.environment_slug {
        Some(s) => append_str(out, s.as_str()),
        None => {},
    }
    append_str(out, "\n  trigger_phrases: ");
    join_strings_to(out, &w.metadata.trigger_phrases, ", ");
    append_str(out, "\n  summary: ");
    let mut instr: Vec<char> = Vec::new();
    join_strings_to(&mut instr, &w.metadata.instructions, " ");
    assert(instr@ =~= join(w@.metadata.instructions, " "@));
    let is = string_of(&instr);
    let c = compact_text(is.as_str(), 180);
    append_str(out, c.as_str());
    append_str(out, "\n");
    assert(out@ =~= start + workflow_entry(w@));
}

/// Builds the prompt that asks the model to choose among the candidate workflows.
pub fn build_selector_prompt(
    candidates: &Vec<WorkflowDefinition>,
    request_text: &str,
    thread: &NormalizedThread,
    environment: Option<&Environment>,
) -> (r: String)
    ensures
        r@ == selector_prompt(workflows_view(candidates@), request_text@, thread@, env_slug_name(environment)),
{
    let mut out = chars_of(
        "Choose the single best workflow for this Slack thread.\nYou may only choose one of the listed workflow IDs or NONE.\nRespond with exactly one token: either the workflow ID or NONE.\nDo not explain your choice.\n\n",
    );
    let ghost p0 = out@;
    match environment {
        Some(e) => {
            append_str(&mut out, "Resolved environment: ");
            append_str(&mut out, e.slug.as_str());
            append_str(&mut out, " (");
            append_str(&mut out, e.name.as_str());
            append_str(&mut out, ")\n\n");
        },
        None => {
            append_str(&mut out, "Resolved environment: none\n\n");
        },
    }
    append_str(&mut out, "Latest request: ");
    let req = compact_text(request_text, 320);
    append_str(&mut out, req.as_str());
    append_str(&mut out, "\n\n");
    append_str(&mut out, "Recent thread context:\n");
    let ghost p1 = out@;
    let recent = recent_relevant_messages(thread);
    let ghost rv = recent_relevant(thread@);
    let mut i: usize = 0;
    assert(rv.take(0) =~= seq![]);
    assert(out@ =~= p1 + context_lines(rv.take(0)));
    while i < recent.len()
        invariant
            i <= recent.len(),
            recent@.len() <= 4,
            forall|k: int| 0 <= k < recent@.len() ==> #[trigger] recent@[k] < thread.messages@.len(),
            recent@.map_values(|j: usize| thread@.messages[j as int]) == rv,
            out@ == p1 + context_lines(rv.take(i as int)),
        decreases recent.len() - i,
    {
        let j = recent[i];
        assert(rv[i as int] == thread@.messages[j as int]);
        assert(thread@.messages[j as int] == thread.messages@[j as int]@);
        push_context_line(&mut out, &thread.messages[j]);
        proof {
            assert(rv.take(i + 1) =~= rv.take(i as int).push(rv[i as int]));
            lemma_context_lines_push(rv.take(i as int), rv[i as int]);
        }
        i = i + 1;
    }
    assert(rv.take(recent.len() as int) =~= rv);
    append_str(&mut out, "\n");
    append_str(&mut out, "Available workflows:\n");
    let ghost p2 = out@;
    let ghost cv = workflows_view(candidates@);
    let mut k: usize = 0;
    assert(cv.take(0) =~= seq![]);
    assert(out@ =~= p2 + workflow_entries(cv.take(0)));
    while k < candidates.len()
        invariant
            k <= candidates.len(),
            cv == workflows_view(candidates@),
            out@ == p2 + workflow_entries(cv.take(k as int)),
        decreases candidates.len() - k,
    {
        push_workflow_entry(&mut out, &candidates[k]);
        proof {
            assert(cv.take(k + 1).drop_last() =~= cv.take(k as int));
            assert(cv.take(k + 1).last() == candidates@[k as int]@);
        }
        assert(out@ =~= p2 + workflow_entries(cv.take(k + 1)));
        k = k + 1;
    }
    assert(cv.take(candidates.len() as int) =~= cv);
    assert(out@ =~= selector_prompt(workflows_view(candidates@), request_text@, thread@, env_slug_name(environment)));
    string_of(&out)
}

/// Why a selection run gave no usable answer.
pub enum SelectorError {
    /// The selection process exited unsuccessfully.
    Failed,
}

/// The workflow id that the model's answer names: none when the run failed, or
/// when the trimmed answer is empty or `NONE` (in any ASCII case).
pub open spec fn selected_id(succeeded: bool, output: Seq<char>) -> Result<Option<Seq<char>>, ()> {
    if !succeeded {
        Err(())
    } else if trim(output).len() == 0 || eq_ignore_ascii_case(trim(output), "NONE"@) {
        Ok(None)
    } else {
        Ok(Some(trim(output)))
    }
}

/// Reads the model's answer, given whether the selection run succeeded and what
/// it wrote.
pub fn interpret_selector_output(succeeded: bool, output: &str) -> (r: Result<Option<String>, SelectorError>)
    ensures
        match r {
            Ok(Some(id)) => selected_id(succeeded, output@) == Ok::<Option<Seq<char>>, ()>(Some(id@)),
            Ok(None) => selected_id(succeeded, output@) == Ok::<Option<Seq<char>>, ()>(None),
            Err(_) => selected_id(succeeded, output@) is Err,
        },
{
    let v = chars_of(output);
    let t = trim_vec(&v);
    if !succeeded {
        return Err(SelectorError::Failed);
    }
    let none = chars_of("NONE");
    if t.len() == 0 || eq_ignore_case(&t, &none) {
        Ok(None)
    } else {
        Ok(Some(string_of(&t)))
    }
}

/// The first candidate, from position `i` on, with the given id.
pub open spec fn first_with_id(candidates: Seq<WorkflowView>, id: Seq<char>, i: int) -> Option<WorkflowView>
    decreases candidates.len() - i,
{
    if i < 0 || i >= candidates.len() {
        None
    } else if candidates[i].metadata.id == id {
        Some(candidates[i])
    } else {
        first_with_id(candidates, id, i + 1)
    }
}

/// The candidate with the selected id, first in order; none when the selection
/// failed, chose nothing, or named no candidate.
pub open spec fn selection_result(candidates: Seq<WorkflowView>, selected: Result<Option<Seq<char>>, ()>) -> Option<WorkflowView> {
    match selected {
        Ok(Some(id)) => first_with_id(candidates, id, 0),
        _ => None,
    }
}

/// The selection as a value.
pub open spec fn selection_view(selected: Result<Option<String>, SelectorError>) -> Result<Option<Seq<char>>, ()> {
    match selected {
        Ok(Some(s)) => Ok(Some(s@)),
        Ok(None) => Ok(None),
        Err(_) => Err(()),
    }
}

/// Picks the candidate that the model selected.
pub fn choose_selected(candidates: Vec<WorkflowDefinition>, selected: Result<Option<String>, SelectorError>) -> (r: Option<WorkflowDefinition>)
    ensures
        match r {
            Some(w) => selection_result(workflows_view(candidates@), selection_view(selected)) == Some(w@),
            None => selection_result(workflows_view(candidates@), selection_view(selected)) is None,
        },
{
    let ghost sel = selection_view(selected);
    let id = match &selected {
        Ok(Some(id)) => id.clone(),
        _ => {
            return None;
        },
    };
    assert(sel == Ok::<Option<Seq<char>>, ()>(Some(id@)));
    let ghost cv = workflows_view(candidates@);
    let mut i: usize = 0;
    while i < candidates.len()
        invariant
            i <= candidates.len(),
            cv == workflows_view(candidates@),
            first_with_id(cv, id@, 0) == first_with_id(cv, id@, i as int),
            selection_result(cv, sel) == first_with_id(cv, id@, 0),
            sel == selection_view(selected),
        decreases candidates.len() - i,
    {
        assert(cv[i as int] == candidates@[i as int]@);
        if str_eq(candidates[i].metadata.id.as_str(), id.as_str()) {
            assert(cv[i as int].metadata.id == id@);
            let w = clone_workflow(&candidates[i]);
            assert(first_with_id(cv, id@, i as int) == Some(w@));
            return Some(w);
        }
        i = i + 1;
    }
    None
}

/// Where the selector writes its answer: a file in the runtime home named with a
/// fresh UUID.
pub fn selector_output_path(relay_home: &str) -> (r: String)
    ensures
        exists|u: Seq<char>| is_v4_uuid_text(u) && r@ == path_join(relay_home@, ".workflow-selection-"@ + u + ".txt"@),
{
    let id = new_uuid();
    let mut name = chars_of(".workflow-selection-");
    append_str(&mut name, id.as_str());
    append_str(&mut name, ".txt");
    let name = string_of(&name);
    let r = join_path(relay_home, name.as_str());
    assert(r@ == path_join(relay_home@, ".workflow-selection-"@ + id@ + ".txt"@));
    r
}

/// The arguments the selector runs Codex with: an ephemeral `exec` without the git
/// check and without colour, writing its answer to `output_path`, then the
/// configured arguments, then the selector prompt.
pub fn selector_args(output_path: &str, default_args: &Vec<String>, prompt: &str) -> (r: Vec<String>)
    ensures
        strings_view(r@) == seq!["exec"@, "--skip-git-repo-check"@, "--ephemeral"@, "--color"@, "never"@, "-o"@, output_path@]
            + strings_view(default_args@) + seq![prompt@],
{
    let mut args: Vec<String> = Vec::new();
    args.push("exec".to_string());
    args.push("--skip-git-repo-check".to_string());
    args.push("--ephemeral".to_string());
    args.push("--color".to_string());
    args.push("never".to_string());
    args.push("-o".to_string());
    args.push(output_path.to_string());
    let ghost head = strings_view(args@);
    assert(head =~= seq!["exec"@, "--skip-git-repo-check"@, "--ephemeral"@, "--color"@, "never"@, "-o"@, output_path@]);
    let ghost dv = strings_view(default_args@);
    let mut i: usize = 0;
    while i < default_args.len()
        invariant
            i <= default_args.len(),
            dv == strings_view(default_args@),
            strings_view(args@) == head + dv.take(i as int),
        decreases default_args.len() - i,
    {
        let ghost before = strings_view(args@);
        args.push(default_args[i].clone());
        assert(strings_view(args@) =~= before.push(dv[i as int]));
        assert(dv.take(i + 1) =~= dv.take(i as int).push(dv[i as int]));
        i = i + 1;
    }
    assert(dv.take(default_args.len() as int) =~= dv);
    let ghost body = strings_view(args@);
    args.push(prompt.to_string());
    assert(strings_view(args@) =~= body.push(prompt@));
    args
}

} // verus!
