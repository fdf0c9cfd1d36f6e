use vstd::prelude::*;
use vstd::string::StringExecFns;

verus! {

/// What a finished node of the recorded search tree returned.
#[derive(Clone, Debug, PartialEq, Eq, Hash)]
pub struct NodeRecord {
    /// The value the search of the node returned.
    pub value: i32,
    /// The lower bound of its window.
    pub alpha: i32,
    /// The upper bound of its window.
    pub beta: i32,
    /// How the value came about.
    pub description: String,
}

/// Records the tree of a search for debugging: each searched state becomes
/// a node below the node that is searched at the moment, and gets its value
/// when its search ends. Nothing is recorded unless `ENABLED` is set.
///
/// The nodes are kept in the order they were searched; a node's parent was
/// searched before it, and the node searched first is the root.
pub struct SearchRecorder<S, const ENABLED: bool> {
    /// The number of the next file the tree is printed to.
    index: usize,
    /// The states of the nodes, in the order they were searched.
    states: Vec<S>,
    /// The parent of each node (`None` for the root).
    parents: Vec<Option<usize>>,
    /// What each node returned, once its search ended.
    records: Vec<Option<NodeRecord>>,
    /// The nodes whose search has not ended yet, from the root down.
    current_nodes: Vec<usize>,
}

/// Whether the nodes searched at the moment form a path from the root: the
/// first is the root and each of the others is a child of the one before.
pub open spec fn is_search_path(parents: Seq<Option<usize>>, path: Seq<usize>) -> bool {
    &&& forall|j: int| 0 <= j < path.len() ==> #[trigger] path[j] < parents.len()
    &&& path.len() > 0 ==> path[0] == 0
    &&& forall|j: int| 0 < j < path.len() ==> parents[#[trigger] path[j] as int] == Some(path[j - 1])
}

impl<S, const ENABLED: bool> SearchRecorder<S, ENABLED> {
    #[verifier::type_invariant]
    spec fn well_formed(self) -> bool {
        &&& self.states@.len() == self.parents@.len()
        &&& self.records@.len() == self.parents@.len()
        &&& forall|i: int| 0 <= i < self.parents@.len() ==> (#[trigger] self.parents@[i] matches Some(parent) ==> parent < i)
        &&& self.parents@.len() > 0 ==> self.parents@[0] is None
        &&& is_search_path(self.parents@, self.current_nodes@)
    }

    /// The number of the next file the tree is printed to.
    pub closed spec fn spec_index(&self) -> usize {
        self.index
    }

    /// The states of the recorded nodes, in the order they were searched.
    pub closed spec fn spec_states(&self) -> Seq<S> {
        self.states@
    }

    /// The parent of each recorded node.
    pub closed spec fn spec_parents(&self) -> Seq<Option<usize>> {
        self.parents@
    }

    /// What each recorded node returned, once its search ended.
    pub closed spec fn spec_records(&self) -> Seq<Option<NodeRecord>> {
        self.records@
    }

    /// The nodes whose search has not ended yet, from the root down.
    pub closed spec fn spec_current_nodes(&self) -> Seq<usize> {
        self.current_nodes@
    }

    /// A recorder without nodes whose first file is number 1.
    pub fn new() -> (recorder: Self)
        ensures
            recorder.spec_index() == 1,
            recorder.spec_states().len() == 0,
            recorder.spec_current_nodes().len() == 0,
    {
        SearchRecorder {
            index: 1,
            states: Vec::new(),
            parents: Vec::new(),
            records: Vec::new(),
            current_nodes: Vec::new(),
        }
    }

    /// Records that the search of a state begins: it becomes a child of the
    /// node searched at the moment, or the root of a new tree when no node
    /// is searched (the previous tree is dropped).
    pub fn push_state(&mut self, state: S)
        requires
            old(self).spec_states().len() < usize::MAX,
        ensures
            !ENABLED ==> final(self).spec_states() == old(self).spec_states()
                && final(self).spec_parents() == old(self).spec_parents()
                && final(self).spec_records() == old(self).spec_records()
                && final(self).spec_current_nodes() == old(self).spec_current_nodes(),
            ENABLED && old(self).spec_current_nodes().len() == 0 ==> final(self).spec_states()
                == seq![state] && final(self).spec_parents() == seq![None::<usize>]
                && final(self).spec_records() == seq![None::<NodeRecord>]
                && final(self).spec_current_nodes() == seq![0usize],
            ENABLED && old(self).spec_current_nodes().len() > 0 ==> final(self).spec_states()
                == old(self).spec_states().push(state) && final(self).spec_parents() == old(
                self,
            ).spec_parents().push(Some(old(self).spec_current_nodes().last()))
                && final(self).spec_records() == old(self).spec_records().push(None)
                && final(self).spec_current_nodes() == old(self).spec_current_nodes().push(
                old(self).spec_states().len() as usize,
            ),
            final(self).spec_index() == old(self).spec_index(),
    {
        proof {
            use_type_invariant(&*self);
        }
        if !ENABLED {
            return;
        }
        if self.current_nodes.len() == 0 {
            let mut states: Vec<S> = Vec::new();
            states.push(state);
            let mut parents: Vec<Option<usize>> = Vec::new();
            parents.push(None);
            let mut records: Vec<Option<NodeRecord>> = Vec::new();
            records.push(None);
            let mut current_nodes: Vec<usize> = Vec::new();
            current_nodes.push(0);
            *self = SearchRecorder { index: self.index, states, parents, records, current_nodes };
        } else {
            let parent = self.current_nodes[self.current_nodes.len() - 1];
            let node = self.states.len();
            let mut taken = SearchRecorder::<S, ENABLED>::new();
            std::mem::swap(&mut taken, self);
            proof {
                use_type_invariant(&taken);
            }
            let SearchRecorder { index, mut states, mut parents, mut records, mut current_nodes } = taken;
            states.push(state);
            parents.push(Some(parent));
            records.push(None);
            current_nodes.push(node);
            assert(is_search_path(parents@, current_nodes@));
            *self = SearchRecorder { index, states, parents, records, current_nodes };
        }
    }

    /// Records that the search of the node searched at the moment ended with
    /// the given value in the window `[alpha, beta]`.
    pub fn pop_state_with_value(&mut self, value: i32, alpha: i32, beta: i32, description: &str)
        requires
            ENABLED ==> old(self).spec_current_nodes().len() > 0,
        ensures
            final(self).spec_states() == old(self).spec_states(),
            final(self).spec_parents() == old(self).spec_parents(),
            final(self).spec_index() == old(self).spec_index(),
            !ENABLED ==> final(self).spec_records() == old(self).spec_records()
                && final(self).spec_current_nodes() == old(self).spec_current_nodes(),
            ENABLED ==> final(self).spec_current_nodes() == old(self).spec_current_nodes().drop_last(),
            ENABLED ==> final(self).spec_records().len() == old(self).spec_records().len(),
            ENABLED ==> forall|i: int|
                0 <= i < old(self).spec_records().len() && i != old(self).spec_current_nodes().last()
                    ==> #[trigger] final(self).spec_records()[i] == old(self).spec_records()[i],
            ENABLED ==> (final(self).spec_records()[old(self).spec_current_nodes().last() as int] matches Some(record)
                && record.value == value && record.alpha == alpha && record.beta == beta
                && record.description@ == description@),
    {
        proof {
            use_type_invariant(&*self);
        }
        if !ENABLED {
            return;
        }
        let mut taken = SearchRecorder::<S, ENABLED>::new();
        std::mem::swap(&mut taken, self);
        proof {
            use_type_invariant(&taken);
        }
        let SearchRecorder { index, states, parents, mut records, mut current_nodes } = taken;
        let node = current_nodes.pop().unwrap();
        records.set(
            node,
            Some(NodeRecord { value, alpha, beta, description: String::from_str(description) }),
        );
        assert(is_search_path(parents@, current_nodes@));
        *self = SearchRecorder { index, states, parents, records, current_nodes };
    }

    /// The number of recorded nodes.
    pub fn len(&self) -> (count: usize)
        ensures
            count == self.spec_states().len(),
    {
        proof {
            use_type_invariant(self);
        }
        self.states.len()
    }

    /// The state of a recorded node.
    pub fn state(&self, node: usize) -> (state: &S)
        requires
            node < self.spec_states().len(),
        ensures
            *state == self.spec_states()[node as int],
    {
        &self.states[node]
    }

    /// What a recorded node returned, once its search ended.
    pub fn record(&self, node: usize) -> (record: &Option<NodeRecord>)
        requires
            node < self.spec_states().len(),
        ensures
            *record == self.spec_records()[node as int],
    {
        proof {
            use_type_invariant(self);
        }
        &self.records[node]
    }

    /// The children of a recorded node, in the order they were searched.
    pub fn children(&self, node: usize) -> (children: Vec<usize>)
        ensures
            forall|j: int| 0 <= j < children@.len() ==> #[trigger] children@[j] < self.spec_states().len()
                && self.spec_parents()[children@[j] as int] == Some(node),
            forall|i: int| 0 <= i < self.spec_states().len() && #[trigger] self.spec_parents()[i] == Some(node)
                ==> children@.contains(i as usize),
            forall|j: int, k: int| 0 <= j < k < children@.len() ==> children@[j] < children@[k],
    {
        proof {
            use_type_invariant(self);
        }
        let mut children: Vec<usize> = Vec::new();
        let mut i: usize = 0;
        while i < self.parents.len()
            invariant
                i <= self.parents@.len(),
                self.states@.len() == self.parents@.len(),
                forall|j: int| 0 <= j < children@.len() ==> #[trigger] children@[j] < i
                    && self.parents@[children@[j] as int] == Some(node),
                forall|m: int| 0 <= m < i && #[trigger] self.parents@[m] == Some(node)
                    ==> children@.contains(m as usize),
                forall|j: int, k: int| 0 <= j < k < children@.len() ==> children@[j] < children@[k],
            decreases self.parents@.len() - i,
        {
            let is_child = match self.parents[i] {
                Some(parent) => parent == node,
                None => false,
            };
            let ghost before = children@;
            if is_child {
                children.push(i);
            }
            proof {
                assert forall|m: int| 0 <= m < i + 1 && #[trigger] self.parents@[m] == Some(node)
                    implies children@.contains(m as usize) by {
                    if m == i {
                        assert(children@[children@.len() - 1] == m as usize);
                    } else {
                        assert(before.contains(m as usize));
                        let j = choose|j: int| 0 <= j < before.len() && before[j] == m as usize;
                        assert(children@[j] == m as usize);
                    }
                }
            }
            i += 1;
        }
        children
    }

    /// Takes the number of the next file the tree is printed to.
    pub fn next_file_index(&mut self) -> (number: usize)
        requires
            old(self).spec_index() < usize::MAX,
        ensures
            number == old(self).spec_index(),
            final(self).spec_index() == old(self).spec_index() + 1,
            final(self).spec_states() == old(self).spec_states(),
            final(self).spec_parents() == old(self).spec_parents(),
            final(self).spec_records() == old(self).spec_records(),
            final(self).spec_current_nodes() == old(self).spec_current_nodes(),
    {
        proof {
            use_type_invariant(&*self);
        }
        let number = self.index;
        self.index = self.index + 1;
        number
    }
}

} // verus!
