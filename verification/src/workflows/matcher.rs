//! Choosing a workflow for a request by its trigger phrases.
use vstd::prelude::*;
use crate::db::models::Environment;
use crate::text::{
    alnum_tokens, chars_eq, chars_of, chars_of_string, contains, contains_chars, lowercase,
    split_alnum_tokens, split_words, strip_prefix, strip_prefix_chars, string_of, to_lowercase,
    vecs_view, words,
};
use crate::workflows::loader::{WorkflowDefinition, WorkflowRegistry, WorkflowView};

verus! {

/// `a` is a subsequence of `b`.
pub open spec fn is_subsequence(a: Seq<Seq<char>>, b: Seq<Seq<char>>) -> bool
    decreases b.len(),
{
    if a.len() == 0 {
        true
    } else if b.len() == 0 {
        false
    } else if a[0] == b[0] {
        is_subsequence(a.drop_first(), b.drop_first())
    } else {
        is_subsequence(a, b.drop_first())
    }
}

/// A trigger phrase matches a lower-cased prompt when the lower-cased phrase occurs
/// in it, or when the phrase has alphanumeric tokens and they occur, in order, among
/// the prompt's tokens.
pub open spec fn phrase_matches_spec(prompt_lower: Seq<char>, phrase: Seq<char>) -> bool {
    let pl = lowercase(phrase);
    contains(prompt_lower, pl) || (alnum_tokens(pl).len() > 0 && is_subsequence(
        alnum_tokens(pl),
        alnum_tokens(prompt_lower),
    ))
}

proof fn lemma_subsequence_skip(a: Seq<Seq<char>>, b: Seq<Seq<char>>, i: int, j: int)
    requires
        0 <= i < a.len(),
        0 <= j < b.len(),
    ensures
        a[i] == b[j] ==> is_subsequence(a.skip(i), b.skip(j)) == is_subsequence(a.skip(i + 1), b.skip(j + 1)),
        a[i] != b[j] ==> is_subsequence(a.skip(i), b.skip(j)) == is_subsequence(a.skip(i), b.skip(j + 1)),
{
    assert(a.skip(i).drop_first() =~= a.skip(i + 1));
    assert(b.skip(j).drop_first() =~= b.skip(j + 1));
    assert(a.skip(i)[0] == a[i]);
    assert(b.skip(j)[0] == b[j]);
}

/// Whether the tokens `a` occur in order among the tokens `b`.
fn subsequence(a: &Vec<Vec<char>>, b: &Vec<Vec<char>>) -> (r: bool)
    ensures
        r == is_subsequence(vecs_view(a@), vecs_view(b@)),
{
    let ghost av = vecs_view(a@);
    let ghost bv = vecs_view(b@);
    let mut i: usize = 0;
    let mut j: usize = 0;
    assert(av.skip(0) =~= av);
    assert(bv.skip(0) =~= bv);
    while i < a.len() && j < b.len()
        invariant
            i <= a.len(),
            j <= b.len(),
            av == vecs_view(a@),
            bv == vecs_view(b@),
            is_subsequence(av, bv) == is_subsequence(av.skip(i as int), bv.skip(j as int)),
        decreases b.len() - j,
    {
        proof {
            lemma_subsequence_skip(av, bv, i as int, j as int);
        }
        if chars_eq(a[i].as_slice(), b[j].as_slice()) {
            i = i + 1;
        }
        j = j + 1;
    }
    if i == a.len() {
        assert(av.skip(i as int).len() == 0);
        true
    } else {
        assert(bv.skip(j as int).len() == 0);
        false
    }
}

/// Whether a trigger phrase matches a lower-cased prompt.
pub fn phrase_matches(prompt_lower: &str, phrase: &str) -> (r: bool)
    ensures
        r == phrase_matches_spec(prompt_lower@, phrase@),
{
    let phrase_lower = to_lowercase(phrase);
    let pv = chars_of(prompt_lower);
    let phv = chars_of_string(&phrase_lower);
    if contains_chars(&pv, &phv) {
        return true;
    }
    let prompt_tokens = split_alnum_tokens(&pv);
    let phrase_tokens = split_alnum_tokens(&phv);
    if phrase_tokens.len() == 0 {
        return false;
    }
    subsequence(&phrase_tokens, &prompt_tokens)
}

/// The id named by the first whitespace-separated token of the prompt that starts
/// with `workflow:`, from position `i` of the tokens on.
pub open spec fn explicit_id_from(tokens: Seq<Seq<char>>, i: int) -> Option<Seq<char>>
    decreases tokens.len() - i,
{
    if i < 0 || i >= tokens.len() {
        None
    } else {
        match strip_prefix(tokens[i], "workflow:"@) {
            Some(rest) => Some(rest),
            None => explicit_id_from(tokens, i + 1),
        }
    }
}

/// The number of phrases, from position `i` on, that match the lower-cased prompt.
pub open spec fn phrase_hits(prompt_lower: Seq<char>, phrases: Seq<Seq<char>>, i: int) -> int
    decreases phrases.len() - i,
{
    if i < 0 || i >= phrases.len() {
        0
    } else {
        (if phrase_matches_spec(prompt_lower, phrases[i]) {
            1int
        } else {
            0int
        }) + phrase_hits(prompt_lower, phrases, i + 1)
    }
}

/// Whether a workflow may be chosen for a request in the given environment:
/// environment-scoped workflows only in their own environment.
pub open spec fn match_eligible(w: WorkflowView, env_slug: Option<Seq<char>>) -> bool {
    match env_slug {
        Some(slug) => w.metadata.environment_slug == Some(slug) || w.metadata.scope != "environment"@,
        None => w.metadata.scope != "environment"@,
    }
}

/// The score of a workflow for a lower-cased prompt: 5 when it belongs to the
/// environment, 3 per matching trigger phrase, and 2 when the prompt mentions its id.
pub open spec fn match_score(w: WorkflowView, env_slug: Option<Seq<char>>, prompt_lower: Seq<char>) -> int {
    (if env_slug is Some && w.metadata.environment_slug == env_slug {
        5int
    } else {
        0int
    }) + 3 * phrase_hits(prompt_lower, w.metadata.trigger_phrases, 0) + (if contains(
        prompt_lower,
        lowercase(w.metadata.id),
    ) {
        2int
    } else {
        0int
    })
}

/// The eligible workflows with a positive score, with their scores, in order.
pub open spec fn match_candidates(ws: Seq<WorkflowView>, env_slug: Option<Seq<char>>, prompt_lower: Seq<char>) -> Seq<(int, WorkflowView)>
    decreases ws.len(),
{
    if ws.len() == 0 {
        seq![]
    } else {
        let prev = match_candidates(ws.drop_last(), env_slug, prompt_lower);
        let w = ws.last();
        if match_eligible(w, env_slug) && match_score(w, env_slug, prompt_lower) > 0 {
            prev.push((match_score(w, env_slug, prompt_lower), w))
        } else {
            prev
        }
    }
}

/// The winner among scored candidates: the only one, or the strictly better of
/// exactly two; no winner otherwise.
pub open spec fn pick_candidate(c: Seq<(int, WorkflowView)>) -> Option<WorkflowView> {
    if c.len() == 1 {
        Some(c[0].1)
    } else if c.len() == 2 {
        if c[0].0 > c[1].0 {
            Some(c[0].1)
        } else if c[1].0 > c[0].0 {
            Some(c[1].1)
        } else {
            None
        }
    } else {
        None
    }
}

/// The workflow chosen for a prompt: the one the prompt names with `workflow:<id>`
/// when the registry has it, otherwise the winner of the trigger-phrase scoring.
pub open spec fn matched_workflow(reg: WorkflowRegistry, prompt: Seq<char>, env_slug: Option<Seq<char>>) -> Option<WorkflowView> {
    let pl = lowercase(prompt);
    match explicit_id_from(words(pl), 0) {
        Some(id) if reg@.contains_key(id) => Some(reg@[id]),
        _ => pick_candidate(match_candidates(reg.ordered(), env_slug, pl)),
    }
}

/// Every workflow's score fits the 32-bit counter the scoring uses.
pub open spec fn scores_fit(reg: WorkflowRegistry) -> bool {
    forall|i: int| 0 <= i < reg.ordered().len() ==> #[trigger] reg.ordered()[i].metadata.trigger_phrases.len() <= 700_000_000
}

/// The environment's slug, if any.
pub open spec fn env_slug_of(environment: Option<&Environment>) -> Option<Seq<char>> {
    match environment {
        Some(e) => Some(e.slug@),
        None => None,
    }
}

fn explicit_id(tokens: &Vec<Vec<char>>) -> (r: Option<Vec<char>>)
    ensures
        match r {
            Some(v) => explicit_id_from(vecs_view(tokens@), 0) == Some(v@),
            None => explicit_id_from(vecs_view(tokens@), 0) is None,
        },
{
    let prefix = chars_of("workflow:");
    let mut i: usize = 0;
    while i < tokens.len()
        invariant
            i <= tokens.len(),
            prefix@ == "workflow:"@,
            explicit_id_from(vecs_view(tokens@), 0) == explicit_id_from(vecs_view(tokens@), i as int),
        decreases tokens.len() - i,
    {
        assert(vecs_view(tokens@)[i as int] == tokens@[i as int]@);
        if let Some(rest) = strip_prefix_chars(tokens[i].as_slice(), &prefix) {
            return Some(rest);
        }
        i = i + 1;
    }
    None
}

fn count_phrase_hits(prompt_lower: &str, phrases: &Vec<String>) -> (r: i32)
    requires
        phrases.len() <= 700_000_000,
    ensures
        r == phrase_hits(prompt_lower@, crate::text::strings_view(phrases@), 0),
        0 <= r <= phrases.len(),
{
    let ghost pv = crate::text::strings_view(phrases@);
    let mut k: usize = phrases.len();
    let mut hits: i32 = 0;
    while k > 0
        invariant
            k <= phrases.len() <= 700_000_000,
            pv == crate::text::strings_view(phrases@),
            hits == phrase_hits(prompt_lower@, pv, k as int),
            0 <= hits <= phrases.len() - k,
        decreases k,
    {
        k = k - 1;
        assert(pv[k as int] == phrases@[k as int]@);
        if phrase_matches(prompt_lower, phrases[k].as_str()) {
            hits = hits + 1;
        }
    }
    hits
}

/// Picks the workflow for a prompt: an explicit `workflow:<id>` token naming a
/// registered workflow wins; otherwise workflows are scored and a sole candidate,
/// or the strictly better of exactly two, is chosen.
pub fn match_workflow(registry: &WorkflowRegistry, prompt: &str, environment: Option<&Environment>) -> (r: Option<WorkflowDefinition>)
    requires
        registry.wf(),
        scores_fit(*registry),
    ensures
        match r {
            Some(w) => matched_workflow(*registry, prompt@, env_slug_of(environment)) == Some(w@),
            None => matched_workflow(*registry, prompt@, env_slug_of(environment)) is None,
        },
{
    let prompt_lower = to_lowercase(prompt);
    let plv = chars_of_string(&prompt_lower);
    let tokens = split_words(&plv);
    if let Some(id) = explicit_id(&tokens) {
        let id_str = string_of(&id);
        if let Some(workflow) = registry.get(id_str.as_str()) {
            return Some(workflow);
        }
    }
    let ghost env_slug = env_slug_of(environment);
    let all = registry.all();
    let ghost ws = registry.ordered();
    let mut candidates: Vec<(i32, WorkflowDefinition)> = Vec::new();
    let mut i: usize = 0;
    assert(ws.take(0) =~= seq![]);
    while i < all.len()
        invariant
            i <= all.len(),
            ws == registry.ordered(),
            crate::workflows::loader::workflows_view(all@) == ws,
            scores_fit(*registry),
            prompt_lower@ == lowercase(prompt@),
            env_slug == env_slug_of(environment),
            candidates@.map_values(|p: (i32, WorkflowDefinition)| (p.0 as int, p.1@))
                == match_candidates(ws.take(i as int), env_slug, prompt_lower@),
        decreases all.len() - i,
    {
        let workflow = &all[i];
        assert(ws[i as int] == workflow@);
        assert(ws.take(i + 1).drop_last() =~= ws.take(i as int));
        assert(ws.take(i + 1).last() == workflow@);
        assert(workflow.metadata.trigger_phrases.len() <= 700_000_000) by {
            assert(ws[i as int].metadata.trigger_phrases.len() == workflow.metadata.trigger_phrases@.len());
        }
        let mut score: i32 = 0;
        let env_match = match environment {
            Some(env) => match &workflow.metadata.environment_slug {
                Some(slug) => crate::text::str_eq(slug.as_str(), env.slug.as_str()),
                None => false,
            },
            None => false,
        };
        let is_env_scoped = crate::text::str_eq(workflow.metadata.scope.as_str(), "environment");
        let eligible = env_match || !is_env_scoped;
        if env_match {
            score = score + 5;
        }
        let hits = count_phrase_hits(prompt_lower.as_str(), &workflow.metadata.trigger_phrases);
        score = score + 3 * hits;
        let id_lower = to_lowercase(workflow.metadata.id.as_str());
        if crate::text::str_contains(prompt_lower.as_str(), id_lower.as_str()) {
            score = score + 2;
        }
        assert(score == match_score(workflow@, env_slug, prompt_lower@));
        assert(eligible == match_eligible(workflow@, env_slug));
        if eligible && score > 0 {
            let ghost before = candidates@;
            candidates.push((score, crate::workflows::loader::clone_workflow(workflow)));
            assert(candidates@.map_values(|p: (i32, WorkflowDefinition)| (p.0 as int, p.1@))
                =~= before.map_values(|p: (i32, WorkflowDefinition)| (p.0 as int, p.1@)).push((score as int, workflow@)));
        }
        i = i + 1;
    }
    assert(ws.take(all.len() as int) =~= ws);
    let ghost cv = candidates@.map_values(|p: (i32, WorkflowDefinition)| (p.0 as int, p.1@));
    if candidates.len() == 1 {
        assert(cv[0] == (candidates@[0].0 as int, candidates@[0].1@));
        let (_, w) = candidates.pop().unwrap();
        Some(w)
    } else if candidates.len() == 2 {
        assert(cv[0] == (candidates@[0].0 as int, candidates@[0].1@));
        assert(cv[1] == (candidates@[1].0 as int, candidates@[1].1@));
        let (score_b, wb) = candidates.pop().unwrap();
        let (score_a, wa) = candidates.pop().unwrap();
        if score_a > score_b {
            Some(wa)
        } else if score_b > score_a {
            Some(wb)
        } else {
            None
        }
    } else {
        None
    }
}

/// Whether every workflow's score fits the counter the scoring uses, as matching
/// requires.
pub fn check_scores_fit(registry: &WorkflowRegistry) -> (r: bool)
    ensures
        r == scores_fit(*registry),
{
    let all = registry.all();
    let ghost ws = crate::workflows::loader::workflows_view(all@);
    let mut i: usize = 0;
    while i < all.len()
        invariant
            i <= all.len(),
            ws == crate::workflows::loader::workflows_view(all@),
            ws == registry.ordered(),
            forall|k: int| 0 <= k < i ==> #[trigger] ws[k].metadata.trigger_phrases.len() <= 700_000_000,
        decreases all.len() - i,
    {
        assert(ws[i as int].metadata.trigger_phrases.len() == all@[i as int].metadata.trigger_phrases@.len());
        if all[i].metadata.trigger_phrases.len() > 700_000_000 {
            return false;
        }
        i = i + 1;
    }
    true
}

/// The positions `idx` pick the tokens of `a`, in order, out of `b`.
pub open spec fn picks_in_order(a: Seq<Seq<char>>, b: Seq<Seq<char>>, idx: Seq<int>) -> bool {
    &&& idx.len() == a.len()
    &&& forall|j: int| 0 <= j < a.len() ==> 0 <= #[trigger] idx[j] < b.len() && b[idx[j]] == a[j]
    &&& forall|j1: int, j2: int| 0 <= j1 < j2 < a.len() ==> #[trigger] idx[j1] < #[trigger] idx[j2]
}

proof fn lemma_picks_make_subsequence(a: Seq<Seq<char>>, b: Seq<Seq<char>>, idx: Seq<int>)
    requires
        picks_in_order(a, b, idx),
    ensures
        is_subsequence(a, b),
    decreases b.len(),
{
    if a.len() > 0 {
        assert(0 <= idx[0] < b.len());
        let shifted = idx.map_values(|x: int| x - 1);
        if a[0] == b[0] {
            let rest = idx.drop_first().map_values(|x: int| x - 1);
            assert forall|j: int| 0 <= j < a.drop_first().len() implies 0 <= #[trigger] rest[j] < b.drop_first().len()
                && b.drop_first()[rest[j]] == a.drop_first()[j] by {
                assert(idx[0] < idx[j + 1]);
                assert(rest[j] == idx[j + 1] - 1);
            }
            assert forall|j1: int, j2: int| 0 <= j1 < j2 < a.drop_first().len() implies #[trigger] rest[j1]
                < #[trigger] rest[j2] by {
                assert(idx[j1 + 1] < idx[j2 + 1]);
            }
            lemma_picks_make_subsequence(a.drop_first(), b.drop_first(), rest);
        } else {
            assert(idx[0] != 0);
            assert forall|j: int| 0 <= j < a.len() implies 0 <= #[trigger] shifted[j] < b.drop_first().len()
                && b.drop_first()[shifted[j]] == a[j] by {
                if j > 0 {
                    assert(idx[0] < idx[j]);
                }
            }
            assert forall|j1: int, j2: int| 0 <= j1 < j2 < a.len() implies #[trigger] shifted[j1]
                < #[trigger] shifted[j2] by {
                assert(idx[j1] < idx[j2]);
            }
            lemma_picks_make_subsequence(a, b.drop_first(), shifted);
        }
    }
}

/// A trigger phrase matches a lower-cased prompt when the phrase, lower-cased,
/// occurs in it, and also when the phrase's words (its alphanumeric tokens,
/// lower-cased; at least one) occur in the prompt's words in the same order, other
/// words allowed in between.
pub proof fn lemma_phrase_words_in_order_match(prompt_lower: Seq<char>, phrase: Seq<char>, idx: Seq<int>)
    requires
        alnum_tokens(lowercase(phrase)).len() > 0,
        picks_in_order(alnum_tokens(lowercase(phrase)), alnum_tokens(prompt_lower), idx),
    ensures
        phrase_matches_spec(prompt_lower, phrase),
{
    lemma_picks_make_subsequence(alnum_tokens(lowercase(phrase)), alnum_tokens(prompt_lower), idx);
}

/// A phrase that occurs, lower-cased, in the lower-cased prompt matches it.
pub proof fn lemma_phrase_occurring_matches(prompt_lower: Seq<char>, phrase: Seq<char>)
    requires
        contains(prompt_lower, lowercase(phrase)),
    ensures
        phrase_matches_spec(prompt_lower, phrase),
{
}

} // verus!
