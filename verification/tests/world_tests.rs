use jrpg_core::ecs::{
    create_test_entities, AnimationComponent, AttrSet, AttrType, Attribute,
    PlayerControlComponent, PositionComponent, VisualComponent, World,
};

fn attrs(position: bool, visual: bool, animation: bool, controller: bool) -> AttrSet {
    AttrSet { position, visual, animation, controller }
}

fn visual(name: &str, row: i32, column: i32) -> VisualComponent {
    VisualComponent { sprite_sheet_name: name.to_string(), sprite_location: (row, column) }
}

/// A world with four entities: 0 holds position; 1 holds position and
/// animation; 2 holds position, visual and animation; 3 holds nothing.
fn sample_world() -> World {
    let mut world = World::new();
    let e0 = world.create_entity();
    world.insert(e0, Attribute::Position(PositionComponent { map_pos: (0, 0) }));
    let e1 = world.create_entity();
    world.insert(e1, Attribute::Position(PositionComponent { map_pos: (1, 1) }));
    world.insert(e1, Attribute::Animation(AnimationComponent::new(3)));
    let e2 = world.create_entity();
    world.insert(e2, Attribute::Position(PositionComponent { map_pos: (2, 2) }));
    world.insert(e2, Attribute::Visual(visual("tiles", 1, 1)));
    world.insert(e2, Attribute::Animation(AnimationComponent::new(3)));
    world.create_entity();
    world
}

#[test]
fn query_lists_exactly_the_holders_of_all_required_kinds() {
    let world = sample_world();
    assert_eq!(world.query(attrs(true, false, false, false)), vec![0, 1, 2]);
    assert_eq!(world.query(attrs(true, false, true, false)), vec![1, 2]);
    assert_eq!(world.query(attrs(false, true, false, false)), vec![2]);
    assert_eq!(world.query(attrs(false, true, true, false)), vec![2]);
    assert_eq!(world.query(attrs(false, false, false, true)), Vec::<usize>::new());
}

#[test]
fn query_with_no_requirement_lists_every_entity() {
    let world = sample_world();
    assert_eq!(world.query(AttrSet::none()), vec![0, 1, 2, 3]);
}

#[test]
fn insert_overwrites_same_kind() {
    let mut world = World::new();
    let e = world.create_entity();
    assert!(world.insert(e, Attribute::Position(PositionComponent { map_pos: (1, 2) })));
    assert!(world.insert(e, Attribute::Position(PositionComponent { map_pos: (7, 8) })));
    let p = world.position_of(e).expect("position stored");
    assert_eq!(p.map_pos, (7, 8));
}

#[test]
fn insert_on_unknown_entity_is_refused() {
    let mut world = World::new();
    assert!(!world.insert(5, Attribute::Position(PositionComponent { map_pos: (0, 0) })));
    assert_eq!(world.num_entities(), 0);
}

#[test]
fn remove_drops_only_the_named_kind() {
    let mut world = sample_world();
    assert!(world.remove(2, AttrType::Visual));
    assert!(world.visual_of(2).is_none());
    assert!(world.position_of(2).is_some());
    assert!(!world.remove(2, AttrType::Visual));
    assert!(!world.remove(99, AttrType::Position));
}

#[test]
fn delete_entity_clears_every_attribute() {
    let mut world = sample_world();
    assert!(world.delete_entity(2));
    assert!(world.position_of(2).is_none());
    assert!(world.visual_of(2).is_none());
    assert!(world.animation_of(2).is_none());
    assert_eq!(world.query(attrs(true, false, false, false)), vec![0, 1]);
    assert_eq!(world.num_entities(), 4);
    assert!(!world.delete_entity(99));
}

#[test]
fn getters_report_missing_attributes_as_none() {
    let world = sample_world();
    assert!(world.controller_of(0).is_none());
    assert!(world.visual_of(0).is_none());
    assert!(world.animation_of(0).is_none());
    assert!(world.position_of(99).is_none());
}

#[test]
fn test_entities_match_the_demonstration_setup() {
    let mut world = World::new();
    create_test_entities(&mut world);
    assert_eq!(world.num_entities(), 2);
    let player_pos = world.position_of(0).expect("player position");
    assert_eq!(player_pos.map_pos, (100, 100));
    let control = world.controller_of(0).expect("player controller");
    assert_eq!(control, PlayerControlComponent { speed: 5 });
    let player_visual = world.visual_of(0).expect("player visual");
    assert_eq!(player_visual.sprite_sheet_name, "sara-atlas");
    assert_eq!(player_visual.sprite_location, (1, 1));
    let player_anim = world.animation_of(0).expect("player animation");
    assert_eq!(player_anim.name, "idle");
    assert_eq!(player_anim.speed, 5);
    let bystander_pos = world.position_of(1).expect("bystander position");
    assert_eq!(bystander_pos.map_pos, (500, 500));
    assert!(world.controller_of(1).is_none());
    assert!(world.animation_of(1).is_none());
}
