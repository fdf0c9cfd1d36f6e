use vstd::prelude::*;

use crate::action_id::ActionId;

verus! {

/// The kind of an action as far as late move pruning distinguishes them.
#[derive(Copy, Clone, Debug, PartialEq, Eq, Hash, Structural)]
pub enum ActionKind {
    /// Walking on the time board.
    Walking,
    /// Taking the first of the next three patches.
    FirstPatch,
    /// Placing a special patch.
    SpecialPatchPlacement,
    /// Taking the second of the next three patches.
    SecondPatch,
    /// Taking the third of the next three patches.
    ThirdPatch,
    /// Any other action (null or phantom actions).
    Other,
}

/// An action of the ordered action list with its kind and its ordering
/// score (a higher score is a more promising action).
#[derive(Copy, Clone, Debug, PartialEq, Eq, Hash, Structural)]
pub struct ScoredAction {
    /// The action.
    pub action: ActionId,
    /// The kind of the action.
    pub kind: ActionKind,
    /// The ordering score of the action.
    pub score: i64,
}

/// The position of the first smallest score, as itertools' `position_min_by`
/// answers it for a non-empty list.
pub open spec fn is_first_minimum(scores: Seq<i64>, index: int) -> bool {
    &&& 0 <= index < scores.len()
    &&& forall|j: int| 0 <= j < scores.len() ==> scores[index] <= #[trigger] scores[j]
    &&& forall|j: int| 0 <= j < index ==> scores[index] < #[trigger] scores[j]
}

/// The position of the first smallest element of a non-empty list of scores.
pub fn position_min(scores: &Vec<i64>) -> (index: usize)
    requires
        scores@.len() > 0,
    ensures
        is_first_minimum(scores@, index as int),
{
    let mut min_index: usize = 0;
    let mut i: usize = 1;
    while i < scores.len()
        invariant
            1 <= i <= scores@.len(),
            min_index < i,
            forall|j: int| 0 <= j < i ==> scores@[min_index as int] <= #[trigger] scores@[j],
            forall|j: int| 0 <= j < min_index ==> scores@[min_index as int] < #[trigger] scores@[j],
        decreases scores@.len() - i,
    {
        if scores[i] < scores[min_index] {
            min_index = i;
        }
        i += 1;
    }
    min_index
}

/// One step of keeping the `capacity` best actions of a kind: a new action is
/// added while there is room, otherwise it replaces the first action with
/// the smallest score if its score is higher.
pub open spec fn keep_best(
    kept: Seq<ActionId>,
    scores: Seq<i64>,
    action: ActionId,
    score: i64,
    capacity: nat,
) -> (Seq<ActionId>, Seq<i64>) {
    if kept.len() < capacity {
        (kept.push(action), scores.push(score))
    } else {
        let min_index = choose|index: int| is_first_minimum(scores, index);
        if score > scores[min_index] {
            (kept.update(min_index, action), scores.update(min_index, score))
        } else {
            (kept, scores)
        }
    }
}

/// The actions and scores kept of the first `n` actions of the list that
/// satisfy `of_kind`.
pub open spec fn kept_actions(
    actions: Seq<ScoredAction>,
    of_kind: spec_fn(ActionKind) -> bool,
    capacity: nat,
    n: nat,
) -> (Seq<ActionId>, Seq<i64>)
    decreases n,
{
    if n == 0 {
        (Seq::empty(), Seq::empty())
    } else {
        let previous = kept_actions(actions, of_kind, capacity, (n - 1) as nat);
        let item = actions[n - 1];
        if of_kind(item.kind) {
            keep_best(previous.0, previous.1, item.action, item.score, capacity)
        } else {
            previous
        }
    }
}

/// The last walking action of the first `n` actions of the list.
pub open spec fn last_walking(actions: Seq<ScoredAction>, n: nat) -> Option<ActionId>
    decreases n,
{
    if n == 0 {
        None
    } else if actions[n - 1].kind == ActionKind::Walking {
        Some(actions[n - 1].action)
    } else {
        last_walking(actions, (n - 1) as nat)
    }
}

/// Whether an action kind counts for the first patch (the first patch or a
/// special patch placement).
pub open spec fn first_patch_kind(kind: ActionKind) -> bool {
    kind == ActionKind::FirstPatch || kind == ActionKind::SpecialPatchPlacement
}

/// Whether an action kind takes one of the next three patches.
pub open spec fn patch_kind(kind: ActionKind) -> bool {
    first_patch_kind(kind) || second_patch_kind(kind) || third_patch_kind(kind)
}

/// Whether an action kind counts for the second patch.
pub open spec fn second_patch_kind(kind: ActionKind) -> bool {
    kind == ActionKind::SecondPatch
}

/// Whether an action kind counts for the third patch.
pub open spec fn third_patch_kind(kind: ActionKind) -> bool {
    kind == ActionKind::ThirdPatch
}

/// Flags and actions for late move pruning that ensure that every action
/// type is tried at least once before all other actions are pruned: the
/// walking action and up to `AMOUNT_PER_PATCH` best actions for each of the
/// next three patches.
#[derive(Clone, Debug, PartialEq, Eq, Hash)]
pub struct LMPFlags<const AMOUNT_PER_PATCH: usize> {
    walking: Option<ActionId>,
    patch1: Vec<ActionId>,
    patch2: Vec<ActionId>,
    patch3: Vec<ActionId>,
}

/// Adds an action to the kept actions of a kind (see `keep_best`).
fn keep_best_action(
    kept: &mut Vec<ActionId>,
    scores: &mut Vec<i64>,
    action: ActionId,
    score: i64,
    capacity: usize,
)
    requires
        old(kept)@.len() == old(scores)@.len(),
        old(kept)@.len() <= capacity,
        capacity > 0,
    ensures
        (final(kept)@, final(scores)@) == keep_best(old(kept)@, old(scores)@, action, score, capacity as nat),
        final(kept)@.len() == final(scores)@.len(),
        final(kept)@.len() <= capacity,
{
    if kept.len() < capacity {
        kept.push(action);
        scores.push(score);
    } else {
        let min_index = position_min(scores);
        proof {
            let chosen = choose|index: int| is_first_minimum(old(scores)@, index);
            assert(is_first_minimum(old(scores)@, min_index as int));
            assert(chosen == min_index as int) by {
                if chosen < min_index {
                    assert(old(scores)@[min_index as int] < old(scores)@[chosen]);
                } else if chosen > min_index {
                    assert(old(scores)@[chosen] < old(scores)@[min_index as int]);
                }
            }
        }
        if score > scores[min_index] {
            kept.set(min_index, action);
            scores.set(min_index, score);
        }
    }
}

impl<const AMOUNT_PER_PATCH: usize> LMPFlags<AMOUNT_PER_PATCH> {
    /// The walking action that was not tried yet.
    pub closed spec fn spec_walking(&self) -> Option<ActionId> {
        self.walking
    }

    /// The actions for the first patch that were not tried yet.
    pub closed spec fn spec_patch1(&self) -> Seq<ActionId> {
        self.patch1@
    }

    /// The actions for the second patch that were not tried yet.
    pub closed spec fn spec_patch2(&self) -> Seq<ActionId> {
        self.patch2@
    }

    /// The actions for the third patch that were not tried yet.
    pub closed spec fn spec_patch3(&self) -> Seq<ActionId> {
        self.patch3@
    }

    /// Flags that hold no action (used when late move pruning is off).
    pub fn fake() -> (flags: Self)
        ensures
            flags.spec_walking() is None,
            flags.spec_patch1() == Seq::<ActionId>::empty(),
            flags.spec_patch2() == Seq::<ActionId>::empty(),
            flags.spec_patch3() == Seq::<ActionId>::empty(),
    {
        Self { walking: None, patch1: Vec::new(), patch2: Vec::new(), patch3: Vec::new() }
    }

    /// Initializes the flags from the ordered action list: the last walking
    /// action, and for each of the next three patches the actions with the
    /// `AMOUNT_PER_PATCH` best scores (a later action replaces the first
    /// kept action with the smallest score when it scores higher).
    pub fn initialize_from(actions: &[ScoredAction]) -> (flags: Self)
        requires
            AMOUNT_PER_PATCH > 0 || forall|i: int|
                0 <= i < actions@.len() ==> !patch_kind(#[trigger] actions@[i].kind),
        ensures
            flags.spec_walking() == last_walking(actions@, actions@.len()),
            flags.spec_patch1() == kept_actions(
                actions@,
                |kind: ActionKind| first_patch_kind(kind),
                AMOUNT_PER_PATCH as nat,
                actions@.len(),
            ).0,
            flags.spec_patch2() == kept_actions(
                actions@,
                |kind: ActionKind| second_patch_kind(kind),
                AMOUNT_PER_PATCH as nat,
                actions@.len(),
            ).0,
            flags.spec_patch3() == kept_actions(
                actions@,
                |kind: ActionKind| third_patch_kind(kind),
                AMOUNT_PER_PATCH as nat,
                actions@.len(),
            ).0,
            flags.spec_patch1().len() <= AMOUNT_PER_PATCH,
            flags.spec_patch2().len() <= AMOUNT_PER_PATCH,
            flags.spec_patch3().len() <= AMOUNT_PER_PATCH,
    {
        let ghost kind1 = |kind: ActionKind| first_patch_kind(kind);
        let ghost kind2 = |kind: ActionKind| second_patch_kind(kind);
        let ghost kind3 = |kind: ActionKind| third_patch_kind(kind);
        let ghost capacity = AMOUNT_PER_PATCH as nat;

        let mut flags = Self {
            walking: None,
            patch1: Vec::new(),
            patch2: Vec::new(),
            patch3: Vec::new(),
        };

        let mut patch_1_scores: Vec<i64> = Vec::new();
        let mut patch_2_scores: Vec<i64> = Vec::new();
        let mut patch_3_scores: Vec<i64> = Vec::new();

        for i in 0..actions.len()
            invariant
                kind1 == (|kind: ActionKind| first_patch_kind(kind)),
                kind2 == (|kind: ActionKind| second_patch_kind(kind)),
                kind3 == (|kind: ActionKind| third_patch_kind(kind)),
                capacity == AMOUNT_PER_PATCH as nat,
                AMOUNT_PER_PATCH > 0 || forall|j: int|
                    0 <= j < actions@.len() ==> !patch_kind(#[trigger] actions@[j].kind),
                flags.walking == last_walking(actions@, i as nat),
                (flags.patch1@, patch_1_scores@) == kept_actions(actions@, kind1, capacity, i as nat),
                (flags.patch2@, patch_2_scores@) == kept_actions(actions@, kind2, capacity, i as nat),
                (flags.patch3@, patch_3_scores@) == kept_actions(actions@, kind3, capacity, i as nat),
                flags.patch1@.len() == patch_1_scores@.len() <= AMOUNT_PER_PATCH,
                flags.patch2@.len() == patch_2_scores@.len() <= AMOUNT_PER_PATCH,
                flags.patch3@.len() == patch_3_scores@.len() <= AMOUNT_PER_PATCH,
        {
            let item = actions[i];
            assert(item == actions@[i as int]);

            if item.kind == ActionKind::Walking {
                flags.walking = Some(item.action);
            }
            if item.kind == ActionKind::FirstPatch || item.kind == ActionKind::SpecialPatchPlacement {
                keep_best_action(
                    &mut flags.patch1,
                    &mut patch_1_scores,
                    item.action,
                    item.score,
                    AMOUNT_PER_PATCH,
                );
            }
            if item.kind == ActionKind::SecondPatch {
                keep_best_action(
                    &mut flags.patch2,
                    &mut patch_2_scores,
                    item.action,
                    item.score,
                    AMOUNT_PER_PATCH,
                );
            }
            if item.kind == ActionKind::ThirdPatch {
                keep_best_action(
                    &mut flags.patch3,
                    &mut patch_3_scores,
                    item.action,
                    item.score,
                    AMOUNT_PER_PATCH,
                );
            }
        }

        flags
    }

    /// Marks the type of the given action as done, so that it does not hold
    /// back late move pruning any more.
    pub fn set_action_type_done(&mut self, kind: ActionKind)
        ensures
            final(self).spec_walking() == if kind == ActionKind::Walking {
                None
            } else {
                old(self).spec_walking()
            },
            final(self).spec_patch1() == if first_patch_kind(kind) {
                Seq::empty()
            } else {
                old(self).spec_patch1()
            },
            final(self).spec_patch2() == if second_patch_kind(kind) {
                Seq::empty()
            } else {
                old(self).spec_patch2()
            },
            final(self).spec_patch3() == if third_patch_kind(kind) {
                Seq::empty()
            } else {
                old(self).spec_patch3()
            },
    {
        if kind == ActionKind::Walking {
            self.walking = None;
        } else if kind == ActionKind::FirstPatch || kind == ActionKind::SpecialPatchPlacement {
            self.patch1 = Vec::new();
        } else if kind == ActionKind::SecondPatch {
            self.patch2 = Vec::new();
        } else if kind == ActionKind::ThirdPatch {
            self.patch3 = Vec::new();
        }
    }

    /// Gets the next action of an action type that was not tried yet: the
    /// walking action first, then the last kept action of the first, second
    /// and third patch; `None` when every action type is done.
    pub fn get_next_missing(&mut self) -> (action: Option<ActionId>)
        ensures
            old(self).spec_walking() is Some ==> action == old(self).spec_walking()
                && final(self).spec_walking() is None && final(self).spec_patch1()
                == old(self).spec_patch1() && final(self).spec_patch2() == old(self).spec_patch2()
                && final(self).spec_patch3() == old(self).spec_patch3(),
            old(self).spec_walking() is None && old(self).spec_patch1().len() > 0 ==> action == Some(
                old(self).spec_patch1().last(),
            ) && final(self).spec_walking() is None && final(self).spec_patch1() == old(
                self,
            ).spec_patch1().drop_last() && final(self).spec_patch2() == old(self).spec_patch2()
                && final(self).spec_patch3() == old(self).spec_patch3(),
            old(self).spec_walking() is None && old(self).spec_patch1().len() == 0 && old(
                self,
            ).spec_patch2().len() > 0 ==> action == Some(old(self).spec_patch2().last())
                && final(self).spec_walking() is None && final(self).spec_patch1() == old(
                self,
            ).spec_patch1() && final(self).spec_patch2() == old(self).spec_patch2().drop_last()
                && final(self).spec_patch3() == old(self).spec_patch3(),
            old(self).spec_walking() is None && old(self).spec_patch1().len() == 0 && old(
                self,
            ).spec_patch2().len() == 0 && old(self).spec_patch3().len() > 0 ==> action == Some(
                old(self).spec_patch3().last(),
            ) && final(self).spec_walking() is None && final(self).spec_patch1() == old(
                self,
            ).spec_patch1() && final(self).spec_patch2() == old(self).spec_patch2()
                && final(self).spec_patch3() == old(self).spec_patch3().drop_last(),
            old(self).spec_walking() is None && old(self).spec_patch1().len() == 0 && old(
                self,
            ).spec_patch2().len() == 0 && old(self).spec_patch3().len() == 0 ==> action is None
                && *final(self) == *old(self),
    {
        if let Some(action) = self.walking.take() {
            return Some(action);
        }

        if !self.patch1.is_empty() {
            return self.patch1.pop();
        }

        if !self.patch2.is_empty() {
            return self.patch2.pop();
        }

        if !self.patch3.is_empty() {
            return self.patch3.pop();
        }

        None
    }
}

/// A non-empty list of scores has a first smallest score.
proof fn lemma_first_minimum_exists(scores: Seq<i64>)
    requires
        scores.len() > 0,
    ensures
        exists|index: int| is_first_minimum(scores, index),
    decreases scores.len(),
{
    if scores.len() == 1 {
        assert(is_first_minimum(scores, 0));
    } else {
        let rest = scores.drop_last();
        lemma_first_minimum_exists(rest);
        let index = choose|index: int| is_first_minimum(rest, index);
        if scores.last() < rest[index] {
            let last = scores.len() - 1;
            assert forall|j: int| 0 <= j < scores.len() implies scores[last] <= #[trigger] scores[j] by {
                if j < last {
                    assert(rest[j] == scores[j]);
                }
            }
            assert forall|j: int| 0 <= j < last implies scores[last] < #[trigger] scores[j] by {
                assert(rest[j] == scores[j]);
            }
            assert(is_first_minimum(scores, last));
        } else {
            assert forall|j: int| 0 <= j < scores.len() implies scores[index] <= #[trigger] scores[j] by {
                if j < scores.len() - 1 {
                    assert(rest[j] == scores[j]);
                }
            }
            assert forall|j: int| 0 <= j < index implies scores[index] < #[trigger] scores[j] by {
                assert(rest[j] == scores[j]);
            }
            assert(is_first_minimum(scores, index));
        }
    }
}

/// The kept actions and their scores have the same length, at most the
/// capacity.
proof fn lemma_kept_lengths(
    actions: Seq<ScoredAction>,
    of_kind: spec_fn(ActionKind) -> bool,
    capacity: nat,
    n: nat,
)
    requires
        capacity > 0,
        n <= actions.len(),
    ensures
        kept_actions(actions, of_kind, capacity, n).0.len() == kept_actions(
            actions,
            of_kind,
            capacity,
            n,
        ).1.len(),
        kept_actions(actions, of_kind, capacity, n).0.len() <= capacity,
    decreases n,
{
    if n > 0 {
        lemma_kept_lengths(actions, of_kind, capacity, (n - 1) as nat);
        let previous = kept_actions(actions, of_kind, capacity, (n - 1) as nat);
        if previous.0.len() >= capacity {
            lemma_first_minimum_exists(previous.1);
        }
    }
}

/// Once an action of the kind was seen, something of the kind is kept.
proof fn lemma_kind_kept(
    actions: Seq<ScoredAction>,
    of_kind: spec_fn(ActionKind) -> bool,
    capacity: nat,
    n: nat,
    witness: int,
)
    requires
        capacity > 0,
        n <= actions.len(),
        0 <= witness < n,
        of_kind(actions[witness].kind),
    ensures
        kept_actions(actions, of_kind, capacity, n).0.len() > 0,
    decreases n,
{
    let previous = kept_actions(actions, of_kind, capacity, (n - 1) as nat);
    lemma_kept_lengths(actions, of_kind, capacity, (n - 1) as nat);
    if of_kind(actions[n - 1].kind) {
        if previous.0.len() >= capacity {
            lemma_first_minimum_exists(previous.1);
        }
    } else {
        lemma_kind_kept(actions, of_kind, capacity, (n - 1) as nat, witness);
    }
}

/// Once a walking action was seen, the last one is kept.
proof fn lemma_walking_kept(actions: Seq<ScoredAction>, n: nat, witness: int)
    requires
        n <= actions.len(),
        0 <= witness < n,
        actions[witness].kind == ActionKind::Walking,
    ensures
        last_walking(actions, n) is Some,
    decreases n,
{
    if actions[n - 1].kind != ActionKind::Walking {
        lemma_walking_kept(actions, (n - 1) as nat, witness);
    }
}

/// Late move pruning tries every action type at least once: when the list
/// holds a walking action, the flags keep one, and when it holds an action
/// for one of the next three patches, the flags keep at least one action
/// for that patch (with room for at least one action per patch).
pub proof fn lemma_every_present_type_is_kept(actions: Seq<ScoredAction>, capacity: nat)
    requires
        capacity > 0,
    ensures
        (exists|i: int| 0 <= i < actions.len() && actions[i].kind == ActionKind::Walking)
            ==> last_walking(actions, actions.len()) is Some,
        (exists|i: int| 0 <= i < actions.len() && first_patch_kind(actions[i].kind))
            ==> kept_actions(actions, |kind: ActionKind| first_patch_kind(kind), capacity, actions.len()).0.len() > 0,
        (exists|i: int| 0 <= i < actions.len() && second_patch_kind(actions[i].kind))
            ==> kept_actions(actions, |kind: ActionKind| second_patch_kind(kind), capacity, actions.len()).0.len() > 0,
        (exists|i: int| 0 <= i < actions.len() && third_patch_kind(actions[i].kind))
            ==> kept_actions(actions, |kind: ActionKind| third_patch_kind(kind), capacity, actions.len()).0.len() > 0,
{
    if exists|i: int| 0 <= i < actions.len() && actions[i].kind == ActionKind::Walking {
        let i = choose|i: int| 0 <= i < actions.len() && actions[i].kind == ActionKind::Walking;
        lemma_walking_kept(actions, actions.len(), i);
    }
    if exists|i: int| 0 <= i < actions.len() && first_patch_kind(actions[i].kind) {
        let i = choose|i: int| 0 <= i < actions.len() && first_patch_kind(actions[i].kind);
        lemma_kind_kept(actions, |kind: ActionKind| first_patch_kind(kind), capacity, actions.len(), i);
    }
    if exists|i: int| 0 <= i < actions.len() && second_patch_kind(actions[i].kind) {
        let i = choose|i: int| 0 <= i < actions.len() && second_patch_kind(actions[i].kind);
        lemma_kind_kept(actions, |kind: ActionKind| second_patch_kind(kind), capacity, actions.len(), i);
    }
    if exists|i: int| 0 <= i < actions.len() && third_patch_kind(actions[i].kind) {
        let i = choose|i: int| 0 <= i < actions.len() && third_patch_kind(actions[i].kind);
        lemma_kind_kept(actions, |kind: ActionKind| third_patch_kind(kind), capacity, actions.len(), i);
    }
}

/// The scores of the actions at the given positions of the list.
pub open spec fn scores_at(actions: Seq<ScoredAction>, positions: Seq<int>) -> Seq<i64> {
    positions.map_values(|position: int| actions[position].score)
}

/// The actions at the given positions of the list.
pub open spec fn actions_at(actions: Seq<ScoredAction>, positions: Seq<int>) -> Seq<ActionId> {
    positions.map_values(|position: int| actions[position].action)
}

/// The positions in the list of the actions that `kept_actions` keeps of
/// the first `n` actions.
pub open spec fn kept_positions(
    actions: Seq<ScoredAction>,
    of_kind: spec_fn(ActionKind) -> bool,
    capacity: nat,
    n: nat,
) -> Seq<int>
    decreases n,
{
    if n == 0 {
        Seq::empty()
    } else {
        let previous = kept_positions(actions, of_kind, capacity, (n - 1) as nat);
        if of_kind(actions[n - 1].kind) {
            if previous.len() < capacity {
                previous.push(n - 1)
            } else {
                let min_index = choose|index: int| is_first_minimum(scores_at(actions, previous), index);
                if actions[n - 1].score > scores_at(actions, previous)[min_index] {
                    previous.update(min_index, n - 1)
                } else {
                    previous
                }
            }
        } else {
            previous
        }
    }
}

/// What `kept_actions` keeps are the actions and scores at
/// `kept_positions`.
proof fn lemma_kept_at_positions(
    actions: Seq<ScoredAction>,
    of_kind: spec_fn(ActionKind) -> bool,
    capacity: nat,
    n: nat,
)
    requires
        capacity > 0,
        n <= actions.len(),
    ensures
        kept_actions(actions, of_kind, capacity, n).0 == actions_at(actions, kept_positions(actions, of_kind, capacity, n)),
        kept_actions(actions, of_kind, capacity, n).1 == scores_at(actions, kept_positions(actions, of_kind, capacity, n)),
    decreases n,
{
    if n > 0 {
        let positions = kept_positions(actions, of_kind, capacity, (n - 1) as nat);
        lemma_positions_in_range(actions, of_kind, capacity, (n - 1) as nat);
        lemma_kept_at_positions(actions, of_kind, capacity, (n - 1) as nat);
        let item = actions[n - 1];
        if of_kind(item.kind) {
            if positions.len() < capacity {
                assert(actions_at(actions, positions.push(n - 1)) =~= actions_at(actions, positions).push(item.action));
                assert(scores_at(actions, positions.push(n - 1)) =~= scores_at(actions, positions).push(item.score));
            } else {
                lemma_first_minimum_exists(scores_at(actions, positions));
                let min_index = choose|index: int| is_first_minimum(scores_at(actions, positions), index);
                assert(is_first_minimum(scores_at(actions, positions), min_index));
                if item.score > scores_at(actions, positions)[min_index] {
                    assert(actions_at(actions, positions.update(min_index, n - 1)) =~= actions_at(actions, positions).update(min_index, item.action));
                    assert(scores_at(actions, positions.update(min_index, n - 1)) =~= scores_at(actions, positions).update(min_index, item.score));
                }
            }
        }
    }
}

/// The kept positions lie among the first `n` positions, are of the kind,
/// differ from each other and are at most `capacity` many.
proof fn lemma_positions_in_range(
    actions: Seq<ScoredAction>,
    of_kind: spec_fn(ActionKind) -> bool,
    capacity: nat,
    n: nat,
)
    requires
        capacity > 0,
        n <= actions.len(),
    ensures
        forall|k: int| 0 <= k < kept_positions(actions, of_kind, capacity, n).len() ==> 0 <= #[trigger] kept_positions(actions, of_kind, capacity, n)[k] < n
            && of_kind(actions[kept_positions(actions, of_kind, capacity, n)[k]].kind),
        forall|k: int, l: int| 0 <= k < l < kept_positions(actions, of_kind, capacity, n).len() ==> #[trigger] kept_positions(actions, of_kind, capacity, n)[k] != #[trigger] kept_positions(actions, of_kind, capacity, n)[l],
        kept_positions(actions, of_kind, capacity, n).len() <= capacity,
    decreases n,
{
    if n > 0 {
        lemma_positions_in_range(actions, of_kind, capacity, (n - 1) as nat);
        let positions = kept_positions(actions, of_kind, capacity, (n - 1) as nat);
        let current = kept_positions(actions, of_kind, capacity, n);
        if of_kind(actions[n - 1].kind) {
            if positions.len() < capacity {
                assert forall|k: int| 0 <= k < positions.len() implies #[trigger] current[k] == positions[k] by {}
                assert(current[positions.len() as int] == n - 1);
            } else {
                lemma_first_minimum_exists(scores_at(actions, positions));
                let min_index = choose|index: int| is_first_minimum(scores_at(actions, positions), index);
                assert(is_first_minimum(scores_at(actions, positions), min_index));
                if actions[n - 1].score > scores_at(actions, positions)[min_index] {
                    assert forall|k: int| 0 <= k < positions.len() && k != min_index implies #[trigger] current[k] == positions[k] by {}
                    assert(current[min_index] == n - 1);
                }
            }
        }
    }
}

/// How many of the first `n` actions are of the kind.
pub open spec fn kind_count(actions: Seq<ScoredAction>, of_kind: spec_fn(ActionKind) -> bool, n: nat) -> nat
    decreases n,
{
    if n == 0 {
        0
    } else if of_kind(actions[n - 1].kind) {
        kind_count(actions, of_kind, (n - 1) as nat) + 1
    } else {
        kind_count(actions, of_kind, (n - 1) as nat)
    }
}

/// Late move pruning keeps the best actions of a kind: of the first `n`
/// actions, distinct positions of the kind are kept, as many as there are
/// actions of the kind but at most `capacity`, all of them as long as there
/// is room, and every action of the kind that is not kept scores at most as
/// high as each kept one.
pub proof fn lemma_kept_actions_are_the_best(
    actions: Seq<ScoredAction>,
    of_kind: spec_fn(ActionKind) -> bool,
    capacity: nat,
    n: nat,
)
    requires
        capacity > 0,
        n <= actions.len(),
    ensures
        kept_actions(actions, of_kind, capacity, n).0 == actions_at(actions, kept_positions(actions, of_kind, capacity, n)),
        kept_actions(actions, of_kind, capacity, n).1 == scores_at(actions, kept_positions(actions, of_kind, capacity, n)),
        kept_positions(actions, of_kind, capacity, n).len() <= capacity,
        kept_positions(actions, of_kind, capacity, n).len() == if kind_count(actions, of_kind, n) < capacity {
            kind_count(actions, of_kind, n)
        } else {
            capacity
        },
        forall|k: int| 0 <= k < kept_positions(actions, of_kind, capacity, n).len() ==> 0 <= #[trigger] kept_positions(actions, of_kind, capacity, n)[k] < n
            && of_kind(actions[kept_positions(actions, of_kind, capacity, n)[k]].kind),
        forall|k: int, l: int| 0 <= k < l < kept_positions(actions, of_kind, capacity, n).len() ==> #[trigger] kept_positions(actions, of_kind, capacity, n)[k] != #[trigger] kept_positions(actions, of_kind, capacity, n)[l],
        kept_positions(actions, of_kind, capacity, n).len() < capacity ==> forall|j: int| 0 <= j < n && of_kind(#[trigger] actions[j].kind)
            ==> kept_positions(actions, of_kind, capacity, n).contains(j),
        forall|j: int, k: int| 0 <= j < n && of_kind(actions[j].kind) && !kept_positions(actions, of_kind, capacity, n).contains(j)
            && 0 <= k < kept_positions(actions, of_kind, capacity, n).len()
            ==> #[trigger] actions[j].score <= actions[#[trigger] kept_positions(actions, of_kind, capacity, n)[k]].score,
    decreases n,
{
    lemma_positions_in_range(actions, of_kind, capacity, n);
    lemma_kept_at_positions(actions, of_kind, capacity, n);
    if n > 0 {
        let m = (n - 1) as nat;
        lemma_kept_actions_are_the_best(actions, of_kind, capacity, m);
        lemma_positions_in_range(actions, of_kind, capacity, m);
        let previous = kept_positions(actions, of_kind, capacity, m);
        let current = kept_positions(actions, of_kind, capacity, n);
        let item = actions[n - 1];
        if of_kind(item.kind) {
            if previous.len() < capacity {
                assert(current == previous.push(n - 1));
                assert forall|j: int| 0 <= j < n && of_kind(#[trigger] actions[j].kind) implies current.contains(j) by {
                    if j < n - 1 {
                        let k = choose|k: int| 0 <= k < previous.len() && previous[k] == j;
                        assert(current[k] == j);
                    } else {
                        assert(current[previous.len() as int] == j);
                    }
                }
            } else {
                let scores = scores_at(actions, previous);
                lemma_first_minimum_exists(scores);
                let min_index = choose|index: int| is_first_minimum(scores, index);
                assert(is_first_minimum(scores, min_index));
                if item.score > scores[min_index] {
                    assert(current == previous.update(min_index, n - 1));
                    assert forall|j: int, k: int| 0 <= j < n && of_kind(actions[j].kind) && !current.contains(j)
                        && 0 <= k < current.len() implies #[trigger] actions[j].score <= actions[#[trigger] current[k]].score by {
                        assert(scores[min_index] == actions[previous[min_index]].score);
                        if j == n - 1 {
                            assert(current[min_index] == j);
                        }
                        if j == previous[min_index] {
                            if k != min_index {
                                assert(current[k] == previous[k]);
                                assert(scores[k] == actions[previous[k]].score);
                            }
                        } else {
                            assert(j < n - 1);
                            if previous.contains(j) {
                                let l = choose|l: int| 0 <= l < previous.len() && previous[l] == j;
                                if l != min_index {
                                    assert(current[l] == j);
                                }
                            }
                            assert(!previous.contains(j));
                            assert(actions[j].score <= actions[previous[min_index]].score);
                            if k != min_index {
                                assert(current[k] == previous[k]);
                            }
                        }
                    }
                } else {
                    assert(current == previous);
                    assert forall|j: int, k: int| 0 <= j < n && of_kind(actions[j].kind) && !current.contains(j)
                        && 0 <= k < current.len() implies #[trigger] actions[j].score <= actions[#[trigger] current[k]].score by {
                        if j == n - 1 {
                            assert(scores[k] == actions[previous[k]].score);
                            assert(scores[min_index] <= scores[k]);
                        }
                    }
                }
            }
        } else {
            assert(current == previous);
        }
    }
}

} // verus!
