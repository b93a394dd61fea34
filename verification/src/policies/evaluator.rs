//! Deciding whether a Slack request is allowed by the loaded policies.
use vstd::prelude::*;
use crate::policies::markdown_parser::{
    PolicyDocument, PolicyDocumentMeta, PolicyRule, RuleView, rules_view,
};
use crate::text::{
    ascii_lower, ascii_upper, clone_opt, clone_strings, contains, is_ascii_text, lemma_ascii_case_folds, lowercase,
    opt_view, str_contains, str_eq, strings_view, to_lowercase,
};

verus! {

/// The outcome of evaluating a request.
pub enum PolicyDecision {
    Allowed,
    NonMasterDenied(PolicyRule),
    CriticalDenied(PolicyRule),
}

/// The mathematical value of a decision.
pub enum DecisionView {
    Allowed,
    NonMasterDenied(RuleView),
    CriticalDenied(RuleView),
}

impl View for PolicyDecision {
    type V = DecisionView;

    open spec fn view(&self) -> DecisionView {
        match self {
            PolicyDecision::Allowed => DecisionView::Allowed,
            PolicyDecision::NonMasterDenied(r) => DecisionView::NonMasterDenied(r@),
            PolicyDecision::CriticalDenied(r) => DecisionView::CriticalDenied(r@),
        }
    }
}

/// The master users and the two policy documents that requests are checked against.
pub struct PolicyEngine {
    masters: Vec<String>,
    non_master: PolicyDocument,
    critical_deny: PolicyDocument,
}

/// Some match term of `rule`, lower-cased, occurs in the lower-cased request.
pub open spec fn rule_matches(rule: RuleView, request_lower: Seq<char>) -> bool {
    exists|k: int|
        0 <= k < rule.match_terms.len() && contains(request_lower, lowercase(#[trigger] rule.match_terms[k]))
}

/// The first rule, from position `i` on, that matches the lower-cased request.
pub open spec fn first_matching_rule(rules: Seq<RuleView>, request_lower: Seq<char>, i: int) -> Option<RuleView>
    decreases rules.len() - i,
{
    if i < 0 || i >= rules.len() {
        None
    } else if rule_matches(rules[i], request_lower) {
        Some(rules[i])
    } else {
        first_matching_rule(rules, request_lower, i + 1)
    }
}

/// The first rule of `doc` that matches `request` (compared case-insensitively).
pub open spec fn matching_rule(doc: PolicyDocument, request: Seq<char>) -> Option<RuleView> {
    first_matching_rule(rules_view(doc.rules@), lowercase(request), 0)
}

/// The rule reported when a non-master request matches no allowed task: it is
/// named after the non-master policy and carries its description as notes.
pub open spec fn non_master_denial(doc: PolicyDocument) -> RuleView {
    RuleView {
        id: "non-master-denied"@,
        title: doc.meta.name@,
        match_terms: seq![],
        examples: seq![],
        notes: opt_view(doc.meta.description),
    }
}

/// Copies a rule.
pub fn clone_rule(r: &PolicyRule) -> (c: PolicyRule)
    ensures
        c@ == r@,
{
    PolicyRule {
        id: r.id.clone(),
        title: r.title.clone(),
        match_terms: clone_strings(&r.match_terms),
        examples: clone_strings(&r.examples),
        notes: clone_opt(&r.notes),
    }
}

impl PolicyEngine {
    /// The master users.
    pub closed spec fn master_ids(&self) -> Seq<Seq<char>> {
        strings_view(self.masters@)
    }

    /// The policy listing what non-master users may ask for.
    pub closed spec fn non_master_doc(&self) -> PolicyDocument {
        self.non_master
    }

    /// The policy listing what nobody may ask for.
    pub closed spec fn critical_doc(&self) -> PolicyDocument {
        self.critical_deny
    }

    /// The decision for `request` from `user`: a matching critical-deny rule wins;
    /// otherwise masters are allowed; otherwise the request must match a rule of the
    /// non-master policy. Rules are matched against the lower-cased request.
    pub open spec fn decision(&self, user: Seq<char>, request: Seq<char>) -> DecisionView {
        self.decision_on_lowered(user, lowercase(request))
    }

    /// The decision for a request, given the request already lower-cased.
    pub open spec fn decision_on_lowered(&self, user: Seq<char>, request_lower: Seq<char>) -> DecisionView {
        match first_matching_rule(rules_view(self.critical_doc().rules@), request_lower, 0) {
            Some(rule) => DecisionView::CriticalDenied(rule),
            None => if self.master_ids().contains(user) {
                DecisionView::Allowed
            } else if first_matching_rule(rules_view(self.non_master_doc().rules@), request_lower, 0) is Some {
                DecisionView::Allowed
            } else {
                DecisionView::NonMasterDenied(non_master_denial(self.non_master_doc()))
            },
        }
    }

    /// Builds an engine from the master user ids and the two loaded policy documents.
    pub fn load(masters: Vec<String>, non_master: PolicyDocument, critical_deny: PolicyDocument) -> (r: Self)
        ensures
            r.master_ids() == strings_view(masters@),
            r.non_master_doc() == non_master,
            r.critical_doc() == critical_deny,
    {
        PolicyEngine { masters, non_master, critical_deny }
    }

    /// Whether `slack_user_id` is one of the master users.
    pub fn is_master(&self, slack_user_id: &str) -> (r: bool)
        ensures
            r == self.master_ids().contains(slack_user_id@),
    {
        let mut i: usize = 0;
        while i < self.masters.len()
            invariant
                i <= self.masters.len(),
                forall|k: int| 0 <= k < i ==> self.masters@[k]@ != slack_user_id@,
            decreases self.masters.len() - i,
        {
            if str_eq(self.masters[i].as_str(), slack_user_id) {
                assert(self.master_ids()[i as int] == slack_user_id@);
                return true;
            }
            i = i + 1;
        }
        assert forall|k: int| 0 <= k < self.master_ids().len() implies self.master_ids()[k] != slack_user_id@ by {
            assert(self.master_ids()[k] == self.masters@[k]@);
        }
        false
    }

    /// Evaluates a request against the policies.
    pub fn evaluate(&self, slack_user_id: &str, request: &str) -> (r: PolicyDecision)
        ensures
            r@ == self.decision(slack_user_id@, request@),
            is_ascii_text(request@) ==> r@ == self.decision_on_lowered(slack_user_id@, ascii_lower(request@)),
    {
        if let Some(rule) = self.match_rule(&self.critical_deny, request) {
            return PolicyDecision::CriticalDenied(rule);
        }
        if self.is_master(slack_user_id) {
            return PolicyDecision::Allowed;
        }
        if let Some(_rule) = self.match_rule(&self.non_master, request) {
            PolicyDecision::Allowed
        } else {
            let rule = PolicyRule {
                id: "non-master-denied".to_owned(),
                title: self.non_master.meta.name.clone(),
                match_terms: Vec::new(),
                examples: Vec::new(),
                notes: clone_opt(&self.non_master.meta.description),
            };
            assert(rule@.match_terms =~= seq![]);
            assert(rule@.examples =~= seq![]);
            PolicyDecision::NonMasterDenied(rule)
        }
    }
}

/// Whether some match term of `rule` occurs in the lower-cased request.
fn rule_hits(rule: &PolicyRule, request_lower: &str) -> (r: bool)
    ensures
        r == rule_matches(rule@, request_lower@),
{
    let mut k: usize = 0;
    while k < rule.match_terms.len()
        invariant
            k <= rule.match_terms.len(),
            forall|j: int| 0 <= j < k ==> !contains(request_lower@, lowercase(#[trigger] rule@.match_terms[j])),
        decreases rule.match_terms.len() - k,
    {
        let term = to_lowercase(rule.match_terms[k].as_str());
        assert(rule@.match_terms[k as int] == rule.match_terms@[k as int]@);
        if str_contains(request_lower, term.as_str()) {
            return true;
        }
        k = k + 1;
    }
    false
}

impl PolicyEngine {
    /// The first rule of `document` that matches `request`, compared case-insensitively.
    pub fn match_rule(&self, document: &PolicyDocument, request: &str) -> (r: Option<PolicyRule>)
        ensures
            match r {
                Some(rule) => matching_rule(*document, request@) == Some(rule@),
                None => matching_rule(*document, request@) is None,
            },
            is_ascii_text(request@) ==> lowercase(request@) == ascii_lower(request@),
    {
        let request_lower = to_lowercase(request);
        let ghost rv = rules_view(document.rules@);
        let mut i: usize = 0;
        while i < document.rules.len()
            invariant
                i <= document.rules.len(),
                rv == rules_view(document.rules@),
                request_lower@ == lowercase(request@),
                is_ascii_text(request@) ==> request_lower@ == ascii_lower(request@),
                first_matching_rule(rv, request_lower@, 0) == first_matching_rule(rv, request_lower@, i as int),
            decreases document.rules.len() - i,
        {
            if rule_hits(&document.rules[i], request_lower.as_str()) {
                return Some(clone_rule(&document.rules[i]));
            }
            i = i + 1;
        }
        None
    }
}

/// A request that matches a critical-deny rule is denied whoever sends it, masters
/// included.
pub proof fn lemma_critical_deny_overrides_masters(engine: PolicyEngine, user: Seq<char>, request: Seq<char>)
    requires
        matching_rule(engine.critical_doc(), request) is Some,
    ensures
        engine.decision(user, request) == DecisionView::CriticalDenied(matching_rule(engine.critical_doc(), request)->0),
{
}

/// Master users are never refused by the non-master policy: their requests are
/// allowed unless a critical-deny rule matches.
pub proof fn lemma_masters_not_limited_by_non_master_policy(engine: PolicyEngine, user: Seq<char>, request: Seq<char>)
    requires
        engine.master_ids().contains(user),
    ensures
        engine.decision(user, request) is Allowed || engine.decision(user, request) is CriticalDenied,
{
}

/// A non-master request that matches neither policy is refused with the
/// non-master denial rule.
pub proof fn lemma_unlisted_non_master_request_denied(engine: PolicyEngine, user: Seq<char>, request: Seq<char>)
    requires
        !engine.master_ids().contains(user),
        matching_rule(engine.critical_doc(), request) is None,
        matching_rule(engine.non_master_doc(), request) is None,
    ensures
        engine.decision(user, request) == DecisionView::NonMasterDenied(non_master_denial(engine.non_master_doc())),
{
}

/// Rules match case-insensitively: on ASCII text a request, its upper-cased form
/// and its lower-cased form get the same decision, from every user.
pub proof fn lemma_decision_ignores_ascii_case(engine: PolicyEngine, user: Seq<char>, request: Seq<char>)
    requires
        is_ascii_text(request),
    ensures
        is_ascii_text(ascii_upper(request)),
        is_ascii_text(ascii_lower(request)),
        engine.decision_on_lowered(user, ascii_lower(ascii_upper(request))) == engine.decision_on_lowered(
            user,
            ascii_lower(request),
        ),
        engine.decision_on_lowered(user, ascii_lower(ascii_lower(request))) == engine.decision_on_lowered(
            user,
            ascii_lower(request),
        ),
{
    lemma_ascii_case_folds(request);
}

/// A rule matches a lower-cased request as soon as any one of its match terms,
/// lower-cased, occurs in it; no term is favoured over another.
pub proof fn lemma_any_match_term_matches(rule: RuleView, request_lower: Seq<char>, k: int)
    requires
        0 <= k < rule.match_terms.len(),
        contains(request_lower, lowercase(rule.match_terms[k])),
    ensures
        rule_matches(rule, request_lower),
{
}

proof fn lemma_first_matching_rule_found(rules: Seq<RuleView>, request_lower: Seq<char>, from: int, i: int)
    requires
        0 <= from <= i < rules.len(),
        rule_matches(rules[i], request_lower),
    ensures
        first_matching_rule(rules, request_lower, from) is Some,
    decreases i - from,
{
    if from < i && !rule_matches(rules[from], request_lower) {
        lemma_first_matching_rule_found(rules, request_lower, from + 1, i);
    }
}

/// Whoever sends it, a request that contains, compared lower-cased, any one match
/// term of any critical-deny rule is denied under the critical-deny policy.
pub proof fn lemma_critical_term_denies(engine: PolicyEngine, user: Seq<char>, request: Seq<char>, i: int, k: int)
    requires
        0 <= i < engine.critical_doc().rules@.len(),
        0 <= k < engine.critical_doc().rules@[i]@.match_terms.len(),
        contains(lowercase(request), lowercase(engine.critical_doc().rules@[i]@.match_terms[k])),
    ensures
        engine.decision(user, request) is CriticalDenied,
{
    let rules = rules_view(engine.critical_doc().rules@);
    assert(rules[i] == engine.critical_doc().rules@[i]@);
    lemma_any_match_term_matches(rules[i], lowercase(request), k);
    lemma_first_matching_rule_found(rules, lowercase(request), 0, i);
}

/// A request from any user that contains, compared lower-cased, any one match term
/// of any rule of the non-master policy is never refused by that policy: it is
/// allowed, unless a critical-deny rule matches.
pub proof fn lemma_allowed_term_admits(engine: PolicyEngine, user: Seq<char>, request: Seq<char>, i: int, k: int)
    requires
        0 <= i < engine.non_master_doc().rules@.len(),
        0 <= k < engine.non_master_doc().rules@[i]@.match_terms.len(),
        contains(lowercase(request), lowercase(engine.non_master_doc().rules@[i]@.match_terms[k])),
    ensures
        engine.decision(user, request) is Allowed || engine.decision(user, request) is CriticalDenied,
{
    let rules = rules_view(engine.non_master_doc().rules@);
    assert(rules[i] == engine.non_master_doc().rules@[i]@);
    lemma_any_match_term_matches(rules[i], lowercase(request), k);
    lemma_first_matching_rule_found(rules, lowercase(request), 0, i);
}

} // verus!
