//! Whom the player can talk to.
//!
//! A contact between a player and the sensor of something to talk to is a
//! chance for an interaction, if the contact is of this frame and a camera
//! looks on. Among the chances of a frame, the last one that the player
//! faces is the one that is offered.

use vstd::prelude::*;
use crate::animation_link::{parent, parent_of};
use crate::components::{contains_entity, Entity};

verus! {

/// Two entities that touch.
#[derive(Clone, Copy, Debug, PartialEq, Eq, Structural)]
pub struct Contact {
    pub entity1: Entity,
    pub entity2: Entity,
    /// Whether the contact came about in the frame at hand.
    pub during_current_frame: bool,
}

/// The player and the other entity of a contact, in that order: the first of
/// the two that is a player comes first, and a contact without a player
/// gives nothing.
pub open spec fn player_and_target(players: Seq<Entity>, entity_a: Entity, entity_b: Entity)
    -> Option<(Entity, Entity)> {
    if players.contains(entity_a) {
        Some((entity_a, entity_b))
    } else if players.contains(entity_b) {
        Some((entity_b, entity_a))
    } else {
        None
    }
}

/// The player of a contact and what it might talk to: the parent of the
/// sensor that the player touches, if that parent is among `targets`, the
/// contact is of this frame and a camera looks on.
pub open spec fn candidate(
    contact: Contact,
    players: Seq<Entity>,
    parents: Seq<Option<Entity>>,
    targets: Seq<Entity>,
    has_camera: bool,
) -> Option<(Entity, Entity)> {
    match player_and_target(players, contact.entity1, contact.entity2) {
        Some((player, sensor)) => match parent_of(parents, sensor) {
            Some(target) => if targets.contains(target) && contact.during_current_frame
                && has_camera {
                Some((player, target))
            } else {
                None
            },
            None => None,
        },
        None => None,
    }
}

/// The target offered after the first `n` chances: that of the last chance
/// among them that the player faces.
pub open spec fn opportunity_through(chances: Seq<(Entity, bool)>, n: nat) -> Option<Entity>
    decreases n,
{
    if n == 0 {
        None
    } else if chances[n - 1].1 {
        Some(chances[n - 1].0)
    } else {
        opportunity_through(chances, (n - 1) as nat)
    }
}

/// Tells which of two touching entities is the player, given the entities
/// that are players.
pub fn get_player_and_target(players: &Vec<Entity>, entity_a: Entity, entity_b: Entity) -> (r:
    Option<(Entity, Entity)>)
    ensures
        r == player_and_target(players@, entity_a, entity_b),
{
    if contains_entity(players, entity_a) {
        Some((entity_a, entity_b))
    } else if contains_entity(players, entity_b) {
        Some((entity_b, entity_a))
    } else {
        None
    }
}

/// Finds, for every contact, the player and what it might talk to.
pub fn interaction_candidates(
    collisions: &Vec<Contact>,
    players: &Vec<Entity>,
    parents: &Vec<Option<Entity>>,
    targets: &Vec<Entity>,
    has_camera: bool,
) -> (candidates: Vec<Option<(Entity, Entity)>>)
    ensures
        candidates@.len() == collisions@.len(),
        forall|i: int|
            0 <= i < collisions@.len() ==> #[trigger] candidates@[i] == candidate(
                collisions@[i],
                players@,
                parents@,
                targets@,
                has_camera,
            ),
{
    let mut candidates: Vec<Option<(Entity, Entity)>> = Vec::new();
    let mut i: usize = 0;
    while i < collisions.len()
        invariant
            i <= collisions@.len(),
            candidates@.len() == i,
            forall|j: int|
                0 <= j < i ==> #[trigger] candidates@[j] == candidate(
                    collisions@[j],
                    players@,
                    parents@,
                    targets@,
                    has_camera,
                ),
        decreases collisions@.len() - i,
    {
        let contacts = collisions[i];
        let found = match get_player_and_target(players, contacts.entity1, contacts.entity2) {
            Some((player, sensor)) => match parent(parents, sensor) {
                Some(target) => if contains_entity(targets, target)
                    && contacts.during_current_frame && has_camera {
                    Some((player, target))
                } else {
                    None
                },
                None => None,
            },
            None => None,
        };
        candidates.push(found);
        i += 1;
    }
    candidates
}

/// Chooses what to offer from the chances of a frame, each a target and
/// whether the player faces it: the last target faced, or nothing.
pub fn update_interaction_opportunities(chances: &Vec<(Entity, bool)>) -> (opportunity: Option<
    Entity,
>)
    ensures
        opportunity == opportunity_through(chances@, chances@.len()),
{
    let mut interaction_opportunity: Option<Entity> = None;
    let mut i: usize = 0;
    while i < chances.len()
        invariant
            i <= chances@.len(),
            interaction_opportunity == opportunity_through(chances@, i as nat),
        decreases chances@.len() - i,
    {
        let (target, is_facing_target) = chances[i];
        if is_facing_target {
            interaction_opportunity = Some(target);
        }
        i += 1;
    }
    interaction_opportunity
}

/// Nothing is offered unless some chance is faced, and what is offered is
/// the target of a faced chance after which no chance is faced.
pub proof fn opportunity_is_the_last_faced(chances: Seq<(Entity, bool)>, n: nat)
    requires
        n <= chances.len(),
    ensures
        opportunity_through(chances, n) is None <==> forall|i: int|
            0 <= i < n ==> !(#[trigger] chances[i]).1,
        opportunity_through(chances, n) is Some ==> exists|i: int|
            0 <= i < n && (#[trigger] chances[i]).1 && chances[i].0 == opportunity_through(
                chances,
                n,
            ).unwrap() && forall|j: int| i < j < n ==> !(#[trigger] chances[j]).1,
    decreases n,
{
    if n > 0 {
        opportunity_is_the_last_faced(chances, (n - 1) as nat);
        if chances[n - 1].1 {
            assert(chances[n - 1].1 && chances[n - 1].0 == opportunity_through(chances, n).unwrap());
        } else if opportunity_through(chances, n) is Some {
            let i = choose|i: int|
                0 <= i < n - 1 && (#[trigger] chances[i]).1 && chances[i].0 == opportunity_through(
                    chances,
                    (n - 1) as nat,
                ).unwrap() && forall|j: int| i < j < n - 1 ==> !(#[trigger] chances[j]).1;
            assert(forall|j: int| i < j < n ==> !(#[trigger] chances[j]).1);
        }
    }
}

} // verus!
