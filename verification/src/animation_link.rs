//! The link from a body to the entity that shows it, and how it is found.
//!
//! Entities form a forest: each has at most one parent. The visual of a
//! character sits somewhere below the character, so the link is found by
//! climbing from the entity that plays the animations up to the entity just
//! below the root of its tree.

use vstd::prelude::*;
use crate::components::{contains_entity, Entity};

verus! {

/// Reference from a body to the entity that shows it. The body does not own
/// that entity, and a link may name a slot that holds no visual yet.
#[derive(Clone, Copy, Debug, PartialEq, Eq, Structural)]
pub struct AnimationEntityLink(pub Entity);

impl AnimationEntityLink {
    /// The slot of the table of visuals that the link names.
    pub open spec fn slot(self) -> int {
        self.0.index as int
    }
}

impl Default for AnimationEntityLink {
    /// A link to the first slot.
    fn default() -> (r: Self)
        ensures
            r == AnimationEntityLink(Entity { index: 0 }),
    {
        AnimationEntityLink(Entity::from_raw(0))
    }
}

/// Parent of `entity` in the table `parents`, which holds at each index the
/// parent of the entity of that index. An entity beyond the table has none.
pub open spec fn parent_of(parents: Seq<Option<Entity>>, entity: Entity) -> Option<Entity> {
    if entity.index < parents.len() {
        parents[entity.index as int]
    } else {
        None
    }
}

/// The entity `steps` steps above `entity`, if its chain of parents is that long.
pub open spec fn ancestor(parents: Seq<Option<Entity>>, entity: Entity, steps: nat) -> Option<
    Entity,
>
    decreases steps,
{
    if steps == 0 {
        Some(entity)
    } else {
        match ancestor(parents, entity, (steps - 1) as nat) {
            Some(below) => parent_of(parents, below),
            None => None,
        }
    }
}

/// True when the chain of parents of `entity` comes to an end.
pub open spec fn has_root(parents: Seq<Option<Entity>>, entity: Entity) -> bool {
    exists|steps: nat| ancestor(parents, entity, steps) is None
}

/// True when `steps` is the number of steps from `entity` up to its root.
pub open spec fn is_depth(parents: Seq<Option<Entity>>, entity: Entity, steps: nat) -> bool {
    ancestor(parents, entity, steps) is Some && ancestor(parents, entity, steps + 1) is None
}

/// Number of steps from `entity` up to its root.
pub open spec fn depth(parents: Seq<Option<Entity>>, entity: Entity) -> nat {
    choose|steps: nat| is_depth(parents, entity, steps)
}

/// The entity just below the root of the tree of `entity`, or `entity` itself
/// where it is the root.
pub open spec fn top_parent(parents: Seq<Option<Entity>>, entity: Entity) -> Entity {
    if depth(parents, entity) == 0 {
        entity
    } else {
        ancestor(parents, entity, (depth(parents, entity) - 1) as nat).unwrap()
    }
}

/// Past the end of a chain of parents there is nothing.
pub proof fn lemma_chain_stays_ended(
    parents: Seq<Option<Entity>>,
    entity: Entity,
    end: nat,
    later: nat,
)
    requires
        ancestor(parents, entity, end) is None,
        end <= later,
    ensures
        ancestor(parents, entity, later) is None,
    decreases later,
{
    if later > end {
        lemma_chain_stays_ended(parents, entity, end, (later - 1) as nat);
    }
}

/// A chain of parents has one depth only.
pub proof fn lemma_depth_is_unique(parents: Seq<Option<Entity>>, entity: Entity, steps: nat)
    requires
        is_depth(parents, entity, steps),
    ensures
        depth(parents, entity) == steps,
{
    let d = depth(parents, entity);
    if d < steps {
        lemma_chain_stays_ended(parents, entity, d + 1, steps);
    } else if steps < d {
        lemma_chain_stays_ended(parents, entity, steps + 1, d);
    }
}

/// Climbing `first` steps and then `then` steps is climbing their sum.
pub proof fn lemma_climb_in_two(
    parents: Seq<Option<Entity>>,
    entity: Entity,
    first: nat,
    then: nat,
)
    ensures
        ancestor(parents, entity, first + then) == (match ancestor(parents, entity, first) {
            Some(middle) => ancestor(parents, middle, then),
            None => None,
        }),
    decreases then,
{
    if then > 0 {
        lemma_climb_in_two(parents, entity, first, (then - 1) as nat);
        assert(first + then - 1 == first + (then - 1));
    }
}

/// An entity that is its own ancestor is met again after every round.
proof fn lemma_round_and_round(
    parents: Seq<Option<Entity>>,
    entity: Entity,
    period: nat,
    rounds: nat,
)
    requires
        ancestor(parents, entity, period) == Some(entity),
    ensures
        ancestor(parents, entity, rounds * period) == Some(entity),
    decreases rounds,
{
    if rounds == 0 {
        assert(rounds * period == 0) by (nonlinear_arith)
            requires
                rounds == 0,
        ;
    } else {
        lemma_round_and_round(parents, entity, period, (rounds - 1) as nat);
        assert(rounds * period == (rounds - 1) * period + period) by (nonlinear_arith);
        lemma_climb_in_two(parents, entity, ((rounds - 1) * period) as nat, period);
    }
}

/// A chain of parents that meets one entity twice never ends.
pub proof fn lemma_cycle_has_no_root(
    parents: Seq<Option<Entity>>,
    entity: Entity,
    first: nat,
    second: nat,
)
    requires
        first < second,
        ancestor(parents, entity, first) is Some,
        ancestor(parents, entity, first) == ancestor(parents, entity, second),
    ensures
        !has_root(parents, entity),
{
    if has_root(parents, entity) {
        let end = choose|steps: nat| ancestor(parents, entity, steps) is None;
        let met = ancestor(parents, entity, first).unwrap();
        let period = (second - first) as nat;
        lemma_climb_in_two(parents, entity, first, period);
        lemma_round_and_round(parents, met, period, end);
        lemma_climb_in_two(parents, entity, first, end * period);
        assert(end * period >= end) by (nonlinear_arith)
            requires
                period >= 1,
                end >= 0,
        ;
        lemma_chain_stays_ended(parents, entity, end, first + end * period);
    }
}

/// Among more numbers than `bound`, all of them natural and below `bound`,
/// two are the same.
proof fn lemma_two_alike(numbers: Seq<int>, bound: nat)
    requires
        numbers.len() > bound,
        forall|k: int| 0 <= k < numbers.len() ==> 0 <= #[trigger] numbers[k] < bound,
    ensures
        exists|i: int, j: int| 0 <= i < j < numbers.len() && numbers[i] == numbers[j],
{
    if numbers.no_duplicates() {
        numbers.unique_seq_to_set();
        let range = vstd::set_lib::set_int_range(0, bound as int);
        vstd::set_lib::lemma_int_range(0, bound as int);
        assert(numbers.to_set().subset_of(range)) by {
            assert forall|x: int| numbers.to_set().contains(x) implies range.contains(x) by {
                let k = choose|k: int| 0 <= k < numbers.len() && numbers[k] == x;
                assert(0 <= numbers[k] < bound);
            }
        }
        vstd::set_lib::lemma_len_subset(numbers.to_set(), range);
    } else {
        let (i, j) = choose|i: int, j: int|
            0 <= i < numbers.len() && 0 <= j < numbers.len() && i != j && numbers[i] == numbers[j];
        if i < j {
            assert(0 <= i < j < numbers.len() && numbers[i] == numbers[j]);
        } else {
            assert(0 <= j < i < numbers.len() && numbers[j] == numbers[i]);
        }
    }
}

/// A chain of parents that is longer than the table never ends: the table
/// holds too few entities for it to meet none of them twice.
pub proof fn lemma_long_chain_has_no_root(parents: Seq<Option<Entity>>, entity: Entity)
    requires
        ancestor(parents, entity, parents.len() + 1) is Some,
    ensures
        !has_root(parents, entity),
{
    let n = parents.len();
    assert forall|k: nat| k <= n + 1 implies ancestor(parents, entity, k) is Some by {
        if ancestor(parents, entity, k) is None {
            lemma_chain_stays_ended(parents, entity, k, n + 1);
        }
    }
    let indices = Seq::new(
        n + 1,
        |k: int| ancestor(parents, entity, k as nat).unwrap().index as int,
    );
    assert forall|k: int| 0 <= k < indices.len() implies 0 <= #[trigger] indices[k] < n by {
        assert(ancestor(parents, entity, k as nat) is Some);
        assert(ancestor(parents, entity, (k + 1) as nat) is Some);
    }
    lemma_two_alike(indices, n);
    let (i, j) = choose|i: int, j: int| 0 <= i < j < indices.len() && indices[i] == indices[j];
    assert(ancestor(parents, entity, i as nat).unwrap() == ancestor(
        parents,
        entity,
        j as nat,
    ).unwrap());
    lemma_cycle_has_no_root(parents, entity, i as nat, j as nat);
}

/// The parent of `entity`, if it has one.
pub fn parent(parents: &Vec<Option<Entity>>, entity: Entity) -> (r: Option<Entity>)
    ensures
        r == parent_of(parents@, entity),
{
    let index = entity.index() as usize;
    if index < parents.len() {
        parents[index]
    } else {
        None
    }
}

/// Whether the chain of parents of `curr_entity` comes to an end, as it does
/// in every forest. The answer is found within one step more than the table
/// has entries.
pub fn chain_ends(curr_entity: Entity, parents: &Vec<Option<Entity>>) -> (r: bool)
    ensures
        r == has_root(parents@, curr_entity),
{
    let n = parents.len();
    let mut current = curr_entity;
    let mut climbed: u128 = 0;
    while climbed <= n as u128
        invariant
            n == parents@.len(),
            climbed <= n + 1,
            ancestor(parents@, curr_entity, climbed as nat) == Some(current),
        decreases n + 1 - climbed,
    {
        match parent(parents, current) {
            Some(above) => {
                current = above;
                climbed += 1;
            },
            None => {
                assert(ancestor(parents@, curr_entity, (climbed + 1) as nat) is None);
                return true;
            },
        }
    }
    proof {
        lemma_long_chain_has_no_root(parents@, curr_entity);
    }
    false
}

/// Climbs from `curr_entity` to the top of its tree and gives the entity just
/// below the top, since the top itself only holds the tree together.
pub fn get_top_parent(curr_entity: Entity, parents: &Vec<Option<Entity>>) -> (top: Entity)
    requires
        has_root(parents@, curr_entity),
    ensures
        top == top_parent(parents@, curr_entity),
{
    let ghost end: nat = choose|steps: nat| ancestor(parents@, curr_entity, steps) is None;
    let ghost climbed: nat = 0;
    let mut current = curr_entity;
    let mut below = curr_entity;
    loop
        invariant
            ancestor(parents@, curr_entity, end) is None,
            ancestor(parents@, curr_entity, climbed) == Some(current),
            climbed < end,
            below == (if climbed == 0 {
                curr_entity
            } else {
                ancestor(parents@, curr_entity, (climbed - 1) as nat).unwrap()
            }),
        decreases end - climbed,
    {
        match parent(parents, current) {
            Some(above) => {
                proof {
                    assert(ancestor(parents@, curr_entity, climbed + 1) == Some(above));
                    if climbed + 1 >= end {
                        lemma_chain_stays_ended(parents@, curr_entity, end, climbed + 1);
                    }
                    climbed = climbed + 1;
                }
                below = current;
                current = above;
            },
            None => {
                proof {
                    assert(ancestor(parents@, curr_entity, climbed + 1) is None);
                    lemma_depth_is_unique(parents@, curr_entity, climbed);
                }
                return below;
            },
        }
    }
}

/// The links to insert once the first `n` of `players` have been looked at:
/// for each player whose top parent is not among `linked`, a link from that
/// top parent to the player, in the order of the players.
pub open spec fn links_for(
    players: Seq<Entity>,
    parents: Seq<Option<Entity>>,
    linked: Seq<Entity>,
    n: nat,
) -> Seq<(Entity, AnimationEntityLink)>
    decreases n,
{
    if n == 0 {
        Seq::empty()
    } else {
        let earlier = links_for(players, parents, linked, (n - 1) as nat);
        let player = players[n - 1];
        let top = top_parent(parents, player);
        if linked.contains(top) {
            earlier
        } else {
            earlier.push((top, AnimationEntityLink(player)))
        }
    }
}

/// Finds, for every entity of `players` that plays animations, the entity
/// that is to carry the link to it. An entity among `linked` carries a link
/// already and gets no second one. The result lists the links to insert.
pub fn link_animations(
    players: &Vec<Entity>,
    parents: &Vec<Option<Entity>>,
    linked: &Vec<Entity>,
) -> (links: Vec<(Entity, AnimationEntityLink)>)
    requires
        forall|i: int| 0 <= i < players@.len() ==> has_root(parents@, #[trigger] players@[i]),
    ensures
        links@ == links_for(players@, parents@, linked@, players@.len()),
{
    let mut links: Vec<(Entity, AnimationEntityLink)> = Vec::new();
    let mut i: usize = 0;
    while i < players.len()
        invariant
            i <= players@.len(),
            forall|j: int| 0 <= j < players@.len() ==> has_root(parents@, #[trigger] players@[j]),
            links@ == links_for(players@, parents@, linked@, i as nat),
        decreases players@.len() - i,
    {
        let entity = players[i];
        let top_entity = get_top_parent(entity, parents);
        if !contains_entity(linked, top_entity) {
            links.push((top_entity, AnimationEntityLink(entity)));
        }
        i += 1;
    }
    links
}

} // verus!
