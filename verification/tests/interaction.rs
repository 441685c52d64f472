use locomotion::components::Entity;
use locomotion::interaction::{
    interaction_candidates, update_interaction_opportunities, Contact,
};

fn e(index: u32) -> Entity {
    Entity::from_raw(index)
}

fn contact(entity1: u32, entity2: u32, during_current_frame: bool) -> Contact {
    Contact { entity1: e(entity1), entity2: e(entity2), during_current_frame }
}

// 1 is the player; 10 and 20 can be talked to and carry the sensors 11 and 21;
// 30 carries the sensor 31 but cannot be talked to; 40 is a sensor without parent.
fn parents() -> Vec<Option<Entity>> {
    let mut parents = vec![None; 41];
    parents[11] = Some(e(10));
    parents[21] = Some(e(20));
    parents[31] = Some(e(30));
    parents
}

fn candidates(collisions: &Vec<Contact>, has_camera: bool) -> Vec<Option<(Entity, Entity)>> {
    interaction_candidates(collisions, &vec![e(1)], &parents(), &vec![e(20), e(10)], has_camera)
}

#[test]
fn a_player_touching_a_sensor_may_talk_to_its_parent() {
    let collisions = vec![contact(1, 11, true), contact(21, 1, true)];
    assert_eq!(
        candidates(&collisions, true),
        vec![Some((e(1), e(10))), Some((e(1), e(20)))]
    );
}

#[test]
fn contacts_without_a_chance_give_nothing() {
    let collisions = vec![
        contact(11, 21, true),
        contact(1, 31, true),
        contact(1, 40, true),
        contact(1, 10, true),
        contact(1, 11, false),
        contact(1, 999, true),
    ];
    assert_eq!(candidates(&collisions, true), vec![None; 6]);
}

#[test]
fn without_a_camera_there_is_no_chance() {
    let collisions = vec![contact(1, 11, true), contact(21, 1, true)];
    assert_eq!(candidates(&collisions, false), vec![None, None]);
    assert_eq!(candidates(&Vec::new(), true), Vec::new());
}

#[test]
fn the_last_target_faced_is_offered() {
    assert_eq!(update_interaction_opportunities(&Vec::new()), None);
    assert_eq!(update_interaction_opportunities(&vec![(e(10), false), (e(20), false)]), None);
    assert_eq!(update_interaction_opportunities(&vec![(e(10), true), (e(20), false)]), Some(e(10)));
    assert_eq!(update_interaction_opportunities(&vec![(e(10), true), (e(20), true)]), Some(e(20)));
    assert_eq!(
        update_interaction_opportunities(&vec![(e(10), false), (e(20), true), (e(10), false)]),
        Some(e(20))
    );
}
