//! Workflow definitions and the registry that holds them by id.
use vstd::prelude::*;
use crate::text::{clone_opt, clone_strings, opt_view, str_eq, strings_view};

verus! {

/// The `workflow.yaml` fields of a workflow.
#[derive(Debug)]
pub struct WorkflowMetadata {
    pub id: String,
    pub name: String,
    pub scope: String,
    pub environment_slug: Option<String>,
    pub trigger_phrases: Vec<String>,
    pub default_environment: Option<String>,
    pub instructions: Vec<String>,
    pub response_mode: String,
}

/// A workflow: its metadata, its prompt template and the directory it was read from.
#[derive(Debug)]
pub struct WorkflowDefinition {
    pub metadata: WorkflowMetadata,
    pub prompt: String,
    pub root_dir: String,
}

/// The value of a workflow's metadata.
pub struct MetadataView {
    pub id: Seq<char>,
    pub name: Seq<char>,
    pub scope: Seq<char>,
    pub environment_slug: Option<Seq<char>>,
    pub trigger_phrases: Seq<Seq<char>>,
    pub default_environment: Option<Seq<char>>,
    pub instructions: Seq<Seq<char>>,
    pub response_mode: Seq<char>,
}

/// The value of a workflow.
pub struct WorkflowView {
    pub metadata: MetadataView,
    pub prompt: Seq<char>,
    pub root_dir: Seq<char>,
}

impl View for WorkflowMetadata {
    type V = MetadataView;

    open spec fn view(&self) -> MetadataView {
        MetadataView {
            id: self.id@,
            name: self.name@,
            scope: self.scope@,
            environment_slug: opt_view(self.environment_slug),
            trigger_phrases: strings_view(self.trigger_phrases@),
            default_environment: opt_view(self.default_environment),
            instructions: strings_view(self.instructions@),
            response_mode: self.response_mode@,
        }
    }
}

impl View for WorkflowDefinition {
    type V = WorkflowView;

    open spec fn view(&self) -> WorkflowView {
        WorkflowView { metadata: self.metadata@, prompt: self.prompt@, root_dir: self.root_dir@ }
    }
}

/// The values of a vector of workflows.
pub open spec fn workflows_view(v: Seq<WorkflowDefinition>) -> Seq<WorkflowView> {
    v.map_values(|w: WorkflowDefinition| w@)
}

/// The response mode a workflow has when its metadata names none.
pub open spec fn default_response_mode_value() -> Seq<char> {
    "reply"@
}

/// The response mode a workflow has when its metadata names none.
pub fn default_response_mode() -> (r: String)
    ensures
        r@ == default_response_mode_value(),
{
    "reply".to_owned()
}

/// Copies a workflow's metadata.
pub fn clone_metadata(m: &WorkflowMetadata) -> (r: WorkflowMetadata)
    ensures
        r@ == m@,
{
    WorkflowMetadata {
        id: m.id.clone(),
        name: m.name.clone(),
        scope: m.scope.clone(),
        environment_slug: clone_opt(&m.environment_slug),
        trigger_phrases: clone_strings(&m.trigger_phrases),
        default_environment: clone_opt(&m.default_environment),
        instructions: clone_strings(&m.instructions),
        response_mode: m.response_mode.clone(),
    }
}

/// Copies a workflow.
pub fn clone_workflow(w: &WorkflowDefinition) -> (r: WorkflowDefinition)
    ensures
        r@ == w@,
{
    WorkflowDefinition { metadata: clone_metadata(&w.metadata), prompt: w.prompt.clone(), root_dir: w.root_dir.clone() }
}

/// Workflows keyed by id. Each key occurs once; the registry keeps the order in
/// which keys were first added.
pub struct WorkflowRegistry {
    entries: Vec<(String, WorkflowDefinition)>,
}

/// The keys of a sequence of registry entries.
pub open spec fn entry_keys(e: Seq<(String, WorkflowDefinition)>) -> Seq<Seq<char>> {
    e.map_values(|p: (String, WorkflowDefinition)| p.0@)
}

/// The workflows of a sequence of registry entries.
pub open spec fn entry_values(e: Seq<(String, WorkflowDefinition)>) -> Seq<WorkflowView> {
    e.map_values(|p: (String, WorkflowDefinition)| p.1@)
}

impl View for WorkflowRegistry {
    type V = Map<Seq<char>, WorkflowView>;

    closed spec fn view(&self) -> Map<Seq<char>, WorkflowView> {
        Map::new(
            |k: Seq<char>| entry_keys(self.entries@).contains(k),
            |k: Seq<char>| entry_values(self.entries@)[entry_keys(self.entries@).index_of(k)],
        )
    }
}

impl WorkflowRegistry {
    /// Keys occur once.
    pub closed spec fn wf(&self) -> bool {
        entry_keys(self.entries@).no_duplicates()
    }

    /// The workflows in registry order.
    pub closed spec fn ordered(&self) -> Seq<WorkflowView> {
        entry_values(self.entries@)
    }

    /// The keys in registry order.
    pub closed spec fn ordered_keys(&self) -> Seq<Seq<char>> {
        entry_keys(self.entries@)
    }

    /// The registry maps each key, in order, to the workflow in the same position.
    pub proof fn lemma_view(&self)
        requires
            self.wf(),
        ensures
            self.ordered().len() == self.ordered_keys().len(),
            self.ordered_keys().no_duplicates(),
            forall|k: Seq<char>| #[trigger] self@.contains_key(k) <==> self.ordered_keys().contains(k),
            forall|i: int| 0 <= i < self.ordered_keys().len() ==> #[trigger] self@[self.ordered_keys()[i]] == self.ordered()[i],
            self@.dom().finite(),
            self@.len() == self.ordered_keys().len(),
    {
        let keys = self.ordered_keys();
        assert forall|i: int| 0 <= i < keys.len() implies #[trigger] self@[keys[i]] == self.ordered()[i] by {
            keys.index_of_first_ensures(keys[i]);
            assert(keys.contains(keys[i]));
            let j = keys.index_of(keys[i]);
            assert(keys[j] == keys[i]);
        }
        assert(self@.dom() =~= keys.to_set());
        keys.unique_seq_to_set();
    }

    /// An empty registry.
    pub fn new() -> (r: Self)
        ensures
            r.wf(),
            r@ == Map::<Seq<char>, WorkflowView>::empty(),
            r.ordered() == Seq::<WorkflowView>::empty(),
    {
        let r = WorkflowRegistry { entries: Vec::new() };
        assert(r@ =~= Map::<Seq<char>, WorkflowView>::empty());
        assert(r.ordered() =~= Seq::<WorkflowView>::empty());
        r
    }

    fn position(&self, id: &str) -> (r: Option<usize>)
        ensures
            match r {
                Some(i) => i < self.entries@.len() && self.entries@[i as int].0@ == id@,
                None => !entry_keys(self.entries@).contains(id@),
            },
    {
        let mut i: usize = 0;
        while i < self.entries.len()
            invariant
                i <= self.entries.len(),
                forall|k: int| 0 <= k < i ==> self.entries@[k].0@ != id@,
            decreases self.entries.len() - i,
        {
            if str_eq(self.entries[i].0.as_str(), id) {
                return Some(i);
            }
            i = i + 1;
        }
        assert forall|k: int| 0 <= k < entry_keys(self.entries@).len() implies entry_keys(self.entries@)[k] != id@ by {
            assert(entry_keys(self.entries@)[k] == self.entries@[k].0@);
        }
        None
    }

    /// Adds `workflow` under `key`, replacing any workflow already there.
    pub fn insert(&mut self, key: String, workflow: WorkflowDefinition)
        requires
            old(self).wf(),
        ensures
            final(self).wf(),
            final(self)@ == old(self)@.insert(key@, workflow@),
    {
        let ghost kv = key@;
        let ghost wv = workflow@;
        let ghost old_keys = entry_keys(self.entries@);
        let ghost old_vals = entry_values(self.entries@);
        let ghost old_map = self@;
        match self.position(key.as_str()) {
            Some(i) => {
                self.entries.set(i, (key, workflow));
                proof {
                    let keys = entry_keys(self.entries@);
                    assert(keys =~= old_keys);
                    assert(entry_values(self.entries@) =~= old_vals.update(i as int, wv));
                    assert forall|k: Seq<char>| keys.contains(k) implies #[trigger] self@[k] == old_map.insert(kv, wv)[k] by {
                        let j = keys.index_of(k);
                        keys.index_of_first_ensures(k);
                        if k == kv {
                            assert(old_keys[i as int] == kv);
                            assert(j == i) by {
                                if j != i {
                                    assert(old_keys[j] == old_keys[i as int]);
                                }
                            }
                        } else {
                            assert(j != i);
                        }
                    }
                    assert(keys[i as int] == kv);
                    assert(keys.contains(kv));
                    assert forall|k: Seq<char>| #[trigger] old_map.insert(kv, wv).contains_key(k) <==> keys.contains(k) by {
                        if k == kv {
                            assert(keys.contains(kv));
                        }
                    }
                    assert(self@ =~= old_map.insert(kv, wv));
                }
            },
            None => {
                self.entries.push((key, workflow));
                proof {
                    let keys = entry_keys(self.entries@);
                    assert(keys =~= old_keys.push(kv));
                    assert(entry_values(self.entries@) =~= old_vals.push(wv));
                    assert forall|a: int, b: int| 0 <= a < keys.len() && 0 <= b < keys.len() && a != b implies keys[a] != keys[b] by {
                        if a < old_keys.len() && b < old_keys.len() {
                        } else if a == old_keys.len() {
                            assert(old_keys.contains(keys[b]) || b == a);
                        } else {
                            assert(old_keys.contains(keys[a]));
                        }
                    }
                    assert forall|k: Seq<char>| keys.contains(k) implies #[trigger] self@[k] == old_map.insert(kv, wv)[k] by {
                        keys.index_of_first_ensures(k);
                        let j = keys.index_of(k);
                        if k == kv {
                            assert(keys[old_keys.len() as int] == kv);
                            assert(j == old_keys.len()) by {
                                if j < old_keys.len() {
                                    assert(old_keys.contains(kv));
                                }
                            }
                        } else {
                            let oj = old_keys.index_of(k);
                            assert(old_keys.contains(k)) by {
                                assert(j < old_keys.len());
                                assert(old_keys[j] == k);
                            }
                            old_keys.index_of_first_ensures(k);
                            assert(oj == j) by {
                                if oj < j {
                                    assert(keys[oj] == k);
                                } else if j < oj {
                                    assert(old_keys[j] == k);
                                }
                            }
                        }
                    }
                    assert forall|k: Seq<char>| #[trigger] old_map.insert(kv, wv).contains_key(k) implies keys.contains(k) by {
                        if k == kv {
                            assert(keys[old_keys.len() as int] == kv);
                        } else {
                            let j = old_keys.index_of(k);
                            old_keys.index_of_first_ensures(k);
                            assert(keys[j] == k);
                        }
                    }
                    assert(self@ =~= old_map.insert(kv, wv));
                }
            },
        }
    }

    /// A registry holding the given keyed workflows; a later entry replaces an earlier
    /// one with the same key.
    pub fn from_workflows(workflows: Vec<(String, WorkflowDefinition)>) -> (r: Self)
        ensures
            r.wf(),
            r@ == inserted_all(workflows@),
    {
        let mut r = Self::new();
        let ghost all = workflows@;
        let mut i: usize = 0;
        assert(all.take(0) =~= seq![]);
        while i < workflows.len()
            invariant
                r.wf(),
                i <= workflows.len(),
                all == workflows@,
                r@ == inserted_all(all.take(i as int)),
            decreases workflows.len() - i,
        {
            let key = workflows[i].0.clone();
            let workflow = clone_workflow(&workflows[i].1);
            proof {
                assert(all.take(i + 1).drop_last() =~= all.take(i as int));
                assert(all.take(i + 1).last() == all[i as int]);
            }
            r.insert(key, workflow);
            i = i + 1;
        }
        assert(all.take(workflows.len() as int) =~= all);
        r
    }

    /// Every workflow, in registry order.
    pub fn all(&self) -> (r: Vec<WorkflowDefinition>)
        ensures
            workflows_view(r@) == self.ordered(),
    {
        let mut out: Vec<WorkflowDefinition> = Vec::new();
        let mut i: usize = 0;
        while i < self.entries.len()
            invariant
                i <= self.entries.len(),
                workflows_view(out@) == entry_values(self.entries@).take(i as int),
            decreases self.entries.len() - i,
        {
            let ghost before = workflows_view(out@);
            let w = clone_workflow(&self.entries[i].1);
            out.push(w);
            proof {
                assert(workflows_view(out@) =~= before.push(w@));
                assert(entry_values(self.entries@).take(i + 1) =~= entry_values(self.entries@).take(i as int).push(self.entries@[i as int].1@));
            }
            i = i + 1;
        }
        assert(entry_values(self.entries@).take(self.entries.len() as int) =~= entry_values(self.entries@));
        out
    }

    /// The workflow with the given id, if any.
    pub fn get(&self, id: &str) -> (r: Option<WorkflowDefinition>)
        requires
            self.wf(),
        ensures
            match r {
                Some(w) => self@.contains_key(id@) && self@[id@] == w@,
                None => !self@.contains_key(id@),
            },
    {
        proof {
            self.lemma_view();
        }
        match self.position(id) {
            Some(i) => {
                proof {
                    assert(self.ordered_keys()[i as int] == id@);
                    assert(self.ordered()[i as int] == self.entries@[i as int].1@);
                }
                Some(clone_workflow(&self.entries[i].1))
            },
            None => None,
        }
    }
}

/// The map that inserting the given entries one after the other gives.
pub open spec fn inserted_all(e: Seq<(String, WorkflowDefinition)>) -> Map<Seq<char>, WorkflowView>
    decreases e.len(),
{
    if e.len() == 0 {
        Map::empty()
    } else {
        inserted_all(e.drop_last()).insert(e.last().0@, e.last().1@)
    }
}

/// Looking a workflow up by the id it was inserted under gives it back, and
/// inserting leaves the other ids as they were.
pub proof fn lemma_get_after_insert(m: Map<Seq<char>, WorkflowView>, key: Seq<char>, w: WorkflowView, other: Seq<char>)
    requires
        other != key,
    ensures
        m.insert(key, w).contains_key(key),
        m.insert(key, w)[key] == w,
        m.insert(key, w).contains_key(other) == m.contains_key(other),
        m.contains_key(other) ==> m.insert(key, w)[other] == m[other],
{
}

} // verus!
