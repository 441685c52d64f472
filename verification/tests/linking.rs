use locomotion::animation_link::{
    chain_ends, get_top_parent, link_animations, AnimationEntityLink,
};
use locomotion::components::{contains_entity, Entity};
use locomotion::interaction::get_player_and_target;

fn e(index: u32) -> Entity {
    Entity::from_raw(index)
}

// 0 is the root of one tree: 0 <- 1 <- 2 <- 3, 1 <- 4; 5 is a root without
// children; 6 <- 7.
fn forest() -> Vec<Option<Entity>> {
    vec![None, Some(e(0)), Some(e(1)), Some(e(2)), Some(e(1)), None, None, Some(e(6))]
}

#[test]
fn a_root_is_its_own_top_parent() {
    assert_eq!(get_top_parent(e(0), &forest()), e(0));
    assert_eq!(get_top_parent(e(5), &forest()), e(5));
}

#[test]
fn a_child_of_the_root_is_its_own_top_parent() {
    assert_eq!(get_top_parent(e(1), &forest()), e(1));
    assert_eq!(get_top_parent(e(7), &forest()), e(7));
}

#[test]
fn deeper_entities_climb_to_just_below_the_root() {
    assert_eq!(get_top_parent(e(2), &forest()), e(1));
    assert_eq!(get_top_parent(e(3), &forest()), e(1));
    assert_eq!(get_top_parent(e(4), &forest()), e(1));
}

#[test]
fn an_entity_beyond_the_table_has_no_parent() {
    assert_eq!(get_top_parent(e(100), &forest()), e(100));
    assert_eq!(get_top_parent(e(3), &Vec::new()), e(3));
    // 1 hangs below an entity that the table does not hold
    let parents = vec![None, Some(e(9)), Some(e(1))];
    assert_eq!(get_top_parent(e(2), &parents), e(1));
    assert_eq!(get_top_parent(e(1), &parents), e(1));
}

#[test]
fn children_may_come_before_their_parents() {
    // 0 -> 3 -> 1 -> 2 (root)
    let parents = vec![Some(e(3)), Some(e(2)), None, Some(e(1))];
    assert_eq!(get_top_parent(e(0), &parents), e(1));
    assert_eq!(get_top_parent(e(3), &parents), e(1));
    assert_eq!(get_top_parent(e(1), &parents), e(1));
    assert_eq!(get_top_parent(e(2), &parents), e(2));
}

#[test]
fn players_are_linked_from_their_top_parents() {
    let links = link_animations(&vec![e(3), e(7)], &forest(), &Vec::new());
    assert_eq!(links, vec![(e(1), AnimationEntityLink(e(3))), (e(7), AnimationEntityLink(e(7)))]);
}

#[test]
fn a_linked_top_parent_gets_no_second_link() {
    let links = link_animations(&vec![e(3), e(7), e(4)], &forest(), &vec![e(5), e(1)]);
    assert_eq!(links, vec![(e(7), AnimationEntityLink(e(7)))]);
}

#[test]
fn two_new_players_below_one_top_parent_both_give_a_link() {
    let links = link_animations(&vec![e(3), e(4)], &forest(), &vec![e(6)]);
    assert_eq!(links, vec![(e(1), AnimationEntityLink(e(3))), (e(1), AnimationEntityLink(e(4)))]);
}

#[test]
fn no_players_no_links() {
    assert_eq!(link_animations(&Vec::new(), &forest(), &vec![e(1)]), Vec::new());
}

#[test]
fn contains_entity_looks_at_every_entry() {
    let entities = vec![e(4), e(9), e(0)];
    assert!(contains_entity(&entities, e(4)));
    assert!(contains_entity(&entities, e(0)));
    assert!(!contains_entity(&entities, e(1)));
    assert!(!contains_entity(&Vec::new(), e(0)));
}

#[test]
fn the_player_comes_first() {
    let players = vec![e(2)];
    assert_eq!(get_player_and_target(&players, e(2), e(5)), Some((e(2), e(5))));
    assert_eq!(get_player_and_target(&players, e(5), e(2)), Some((e(2), e(5))));
    assert_eq!(get_player_and_target(&players, e(5), e(6)), None);
    assert_eq!(get_player_and_target(&Vec::new(), e(2), e(5)), None);
}

#[test]
fn of_two_players_the_first_entity_is_the_player() {
    let players = vec![e(2), e(5)];
    assert_eq!(get_player_and_target(&players, e(5), e(2)), Some((e(5), e(2))));
    assert_eq!(get_player_and_target(&players, e(2), e(2)), Some((e(2), e(2))));
}

#[test]
fn chains_of_a_forest_end() {
    for index in 0..8 {
        assert!(chain_ends(e(index), &forest()));
    }
    assert!(chain_ends(e(100), &forest()));
    assert!(chain_ends(e(0), &Vec::new()));
}

#[test]
fn chains_that_run_in_circles_do_not_end() {
    let two = vec![Some(e(1)), Some(e(0)), Some(e(0)), None];
    assert!(!chain_ends(e(0), &two));
    assert!(!chain_ends(e(1), &two));
    assert!(!chain_ends(e(2), &two));
    assert!(chain_ends(e(3), &two));
    let itself = vec![Some(e(0))];
    assert!(!chain_ends(e(0), &itself));
    let long = vec![Some(e(1)), Some(e(2)), Some(e(3)), Some(e(4)), Some(e(2))];
    assert!(!chain_ends(e(0), &long));
}

#[test]
fn the_longest_chain_of_a_table_still_ends() {
    let line = vec![Some(e(1)), Some(e(2)), Some(e(3)), Some(e(4)), None];
    assert!(chain_ends(e(0), &line));
    assert_eq!(get_top_parent(e(0), &line), e(3));
    let out = vec![Some(e(1)), Some(e(2)), Some(e(3)), Some(e(4)), Some(e(5))];
    assert!(chain_ends(e(0), &out));
    assert_eq!(get_top_parent(e(0), &out), e(4));
}
