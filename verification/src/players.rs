//! The players of the game and their options.
use vstd::prelude::*;
use vstd::string::StringExecFns;

use rand::seq::SliceRandom;
use rand::SeedableRng;
use rand_xoshiro::Xoshiro256PlusPlus;

use crate::action_id::ActionId;
use crate::random::random_u64;

verus! {

/// The random number generator of the random player.
#[verifier::external_type_specification]
#[verifier::external_body]
pub struct ExXoshiro256PlusPlus(rand_xoshiro::Xoshiro256PlusPlus);

/// `Clone` of the generator, which `derive` writes over its state: the
/// clone has the same state.
pub assume_specification[ <rand_xoshiro::Xoshiro256PlusPlus as std::clone::Clone>::clone ](
    generator: &rand_xoshiro::Xoshiro256PlusPlus,
) -> (copy: rand_xoshiro::Xoshiro256PlusPlus)
    ensures
        copy == *generator,
;

/// Creates the generator of `rand_xoshiro` seeded from the number with
/// `SeedableRng::seed_from_u64`; its state is not described.
#[verifier::external_body]
fn seeded_generator(seed: u64) -> Xoshiro256PlusPlus {
    Xoshiro256PlusPlus::seed_from_u64(seed)
}

/// Picks an action of the list with `rand`'s `SliceRandom::choose`: `None`
/// exactly when the list is empty, otherwise one of its actions (which one
/// depends on the state of the generator).
#[verifier::external_body]
fn choose_action(rng: &mut Xoshiro256PlusPlus, actions: &[ActionId]) -> (chosen: Option<ActionId>)
    ensures
        chosen is None <==> actions@.len() == 0,
        chosen matches Some(action) ==> actions@.contains(action),
{
    actions.choose(rng).copied()
}

/// A player that is human: it chooses its actions from what it types.
#[derive(Debug, Clone, PartialEq, Eq, Hash)]
pub struct HumanPlayer {
    /// The name of the player.
    pub name: String,
}

impl HumanPlayer {
    /// Creates a human player with the given name.
    pub fn new(name: String) -> (player: Self)
        ensures
            player.name == name,
    {
        HumanPlayer { name }
    }
}

/// Evaluates finished games of the tree search by the score difference.
#[derive(Copy, Clone, Debug, PartialEq, Eq, Hash, Structural)]
pub struct ScoreEvaluator {}

impl ScoreEvaluator {
    /// Creates a new [`ScoreEvaluator`].
    pub fn new() -> (evaluator: Self)
        ensures
            evaluator == (ScoreEvaluator {}),
    {
        ScoreEvaluator {}
    }
}

/// Evaluates finished games of the tree search by win or loss.
#[derive(Copy, Clone, Debug, PartialEq, Eq, Hash, Structural)]
pub struct WinLossEvaluator {}

impl WinLossEvaluator {
    /// Creates a new [`WinLossEvaluator`].
    pub fn new() -> (evaluator: Self)
        ensures
            evaluator == (WinLossEvaluator {}),
    {
        WinLossEvaluator {}
    }
}

/// Different end conditions for the Monte Carlo tree search.
#[derive(Clone, Debug, PartialEq, Eq, Hash)]
pub enum MCTSEndCondition {
    /// The number of simulations to run.
    Iterations(u32),
    /// How long simulations are run.
    Time(std::time::Duration),
}

/// `Clone` of `std::time::Duration`: the type is `Copy`, so a clone is the
/// same duration.
pub assume_specification[ <std::time::Duration as std::clone::Clone>::clone ](
    duration: &std::time::Duration,
) -> (copy: std::time::Duration)
    ensures
        copy == *duration,
;

/// The duration of whole seconds that `std::time::Duration::from_secs`
/// gives (the duration type is opaque, so it is named, not written out).
pub uninterp spec fn duration_of_seconds(seconds: u64) -> std::time::Duration;

/// A duration of whole seconds, `std::time::Duration::from_secs`: the
/// duration of that many seconds.
#[verifier::external_body]
fn seconds(count: u64) -> (duration: std::time::Duration)
    ensures
        duration == duration_of_seconds(count),
{
    std::time::Duration::from_secs(count)
}

/// Different options for the Monte Carlo tree search.
#[derive(Clone, Debug, PartialEq)]
pub struct MCTSOptions {
    /// How many searches run in parallel (0 for all available cores, 1 for
    /// no parallelization).
    pub root_parallelization: usize,
    /// How many simulations run in parallel (0 for all available cores, 1
    /// for no parallelization).
    pub leaf_parallelization: usize,
    /// The end condition of the search.
    pub end_condition: MCTSEndCondition,
}

impl MCTSOptions {
    /// The default options on a machine with the given available
    /// parallelism (`None` when unknown): an even number of parallel
    /// searches (the parallelism rounded down to an even number, 4 when
    /// unknown), no parallel simulations and a time limit of a minute.
    pub fn with_available_parallelism(available: Option<usize>) -> (options: Self)
        ensures
            options.root_parallelization == match available {
                Some(n) => n / 2 * 2,
                None => 4,
            },
            options.leaf_parallelization == 1,
            options.end_condition == MCTSEndCondition::Time(duration_of_seconds(60)),
    {
        let root_parallelization = match available {
            Some(n) => n / 2 * 2,
            None => 4,
        };
        MCTSOptions {
            root_parallelization,
            leaf_parallelization: 1,
            end_condition: MCTSEndCondition::Time(seconds(60)),
        }
    }
}

/// The child of the root that the tree search plays: the one visited most
/// often, the last of them when several are visited equally often (as
/// `Iterator::max_by_key` picks).
pub fn most_visited_child(visit_counts: &Vec<i32>) -> (index: usize)
    requires
        visit_counts@.len() > 0,
    ensures
        index < visit_counts@.len(),
        forall|j: int| 0 <= j < visit_counts@.len() ==> visit_counts@[j] <= visit_counts@[index as int],
        forall|j: int| index < j < visit_counts@.len() ==> visit_counts@[j] < visit_counts@[index as int],
{
    let mut best: usize = 0;
    let mut i: usize = 1;
    while i < visit_counts.len()
        invariant
            1 <= i <= visit_counts@.len(),
            best < i,
            forall|j: int| 0 <= j < i ==> visit_counts@[j] <= visit_counts@[best as int],
            forall|j: int| best < j < i ==> visit_counts@[j] < visit_counts@[best as int],
        decreases visit_counts@.len() - i,
    {
        if visit_counts[i] >= visit_counts[best] {
            best = i;
        }
        i += 1;
    }
    best
}

/// Expands a node of the tree search: the first of its actions that have no
/// child yet is taken out and becomes the action of a new, last child.
pub fn expand_first_action(expandable_actions: &mut Vec<ActionId>, child_actions: &mut Vec<ActionId>) -> (action: ActionId)
    requires
        old(expandable_actions)@.len() > 0,
    ensures
        action == old(expandable_actions)@[0],
        final(expandable_actions)@ == old(expandable_actions)@.drop_first(),
        final(child_actions)@ == old(child_actions)@.push(action),
{
    let action = expandable_actions.remove(0);
    child_actions.push(action);
    action
}

/// The options of the random player.
#[derive(Copy, Clone, Debug, PartialEq, Eq, Hash, Structural)]
pub struct RandomOptions {
    /// The seed of the random number generator.
    pub seed: u64,
}

impl RandomOptions {
    /// Creates options with the given seed.
    pub fn new(seed: u64) -> (options: Self)
        ensures
            options.seed == seed,
    {
        RandomOptions { seed }
    }
}

impl Default for RandomOptions {
    /// Options with a random seed.
    fn default() -> Self {
        RandomOptions { seed: random_u64() }
    }
}

/// A computer player that takes random actions.
#[derive(Debug, Clone, PartialEq, Eq)]
pub struct RandomPlayer {
    /// The name of the player.
    name: String,
    /// The random number generator used to choose actions.
    rng: Xoshiro256PlusPlus,
}

/// A random player found no action to take.
#[derive(Copy, Clone, Debug, PartialEq, Eq, Hash, Structural)]
pub enum RandomPlayerError {
    /// The list of valid actions was empty.
    NoValidActions,
}

impl RandomPlayer {
    /// The name of the player.
    pub closed spec fn spec_name(&self) -> Seq<char> {
        self.name@
    }

    /// Creates a random player with the given name whose generator is
    /// seeded with the seed of the options (a random seed without options).
    pub fn new(name: String, options: Option<RandomOptions>) -> (player: Self)
        ensures
            player.spec_name() == name@,
    {
        let options = match options {
            Some(options) => options,
            None => RandomOptions::default(),
        };
        RandomPlayer { name, rng: seeded_generator(options.seed) }
    }

    /// The random player named `Random Player` with a random seed.
    pub fn with_default_name() -> (player: Self)
        ensures
            player.spec_name() == "Random Player"@,
    {
        RandomPlayer::new(String::from_str("Random Player"), None)
    }

    /// The name of the player.
    pub fn name(&self) -> (name: &str)
        ensures
            name@ == self.spec_name(),
    {
        self.name.as_str()
    }

    /// Picks one of the valid actions at random; an error when there is
    /// none.
    pub fn get_action(&mut self, valid_actions: &[ActionId]) -> (action: Result<ActionId, RandomPlayerError>)
        ensures
            action is Err <==> valid_actions@.len() == 0,
            action matches Ok(chosen) ==> valid_actions@.contains(chosen),
            action matches Err(error) ==> error == RandomPlayerError::NoValidActions,
            final(self).spec_name() == old(self).spec_name(),
    {
        match choose_action(&mut self.rng, valid_actions) {
            Some(chosen) => Ok(chosen),
            None => Err(RandomPlayerError::NoValidActions),
        }
    }
}

/// A computer player that searches with the principal variation search.
#[derive(Debug, Clone, PartialEq, Eq, Hash)]
pub struct PrincipalVariationSearchPlayer {
    /// The name of the player.
    pub name: String,
}

impl PrincipalVariationSearchPlayer {
    /// Creates a player with the given name.
    pub fn new(name: String) -> (player: Self)
        ensures
            player.name == name,
    {
        PrincipalVariationSearchPlayer { name }
    }

    /// The player named `Principal Variation Search Player`.
    pub fn with_default_name() -> (player: Self)
        ensures
            player.name@ == "Principal Variation Search Player"@,
    {
        PrincipalVariationSearchPlayer::new(String::from_str("Principal Variation Search Player"))
    }
}

} // verus!
