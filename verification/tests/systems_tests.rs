use jrpg_core::assets::{AssetContainer, AssetDatabase, SpriteSheet};
use jrpg_core::ecs::{
    AnimationComponent, AnimationSystem, Attribute, PlayerControlComponent,
    PlayerControlSystem, PositionComponent, RenderSystem, VisualComponent, World,
};
use jrpg_core::game_state::ControlData;

fn flags(left: bool, right: bool, up: bool, down: bool) -> ControlData {
    ControlData { move_left: left, move_right: right, move_up: up, move_down: down }
}

fn hero_database() -> AssetDatabase {
    let mut sheet = SpriteSheet::new(96, 96, 3, 3);
    sheet.add_animation("walk left".to_string(), vec![(1, 1), (1, 2), (1, 3)]);
    let mut db = AssetDatabase::new();
    db.add_asset("hero".to_string(), AssetContainer::Spritesheet(sheet));
    db
}

fn hero_entity(world: &mut World, speed: u16, timer: u16) -> usize {
    let e = world.create_entity();
    world.insert(
        e,
        Attribute::Visual(VisualComponent {
            sprite_sheet_name: "hero".to_string(),
            sprite_location: (1, 1),
        }),
    );
    world.insert(
        e,
        Attribute::Animation(AnimationComponent {
            name: "walk left".to_string(),
            index: 0,
            speed,
            timer,
        }),
    );
    e
}

fn moving_entity(world: &mut World, speed: u32) -> usize {
    let e = world.create_entity();
    world.insert(e, Attribute::Position(PositionComponent { map_pos: (100, 100) }));
    world.insert(e, Attribute::Controller(PlayerControlComponent { speed }));
    world.insert(e, Attribute::Animation(AnimationComponent::new(0)));
    e
}

#[test]
fn animation_with_zero_hold_wraps_after_full_cycle() {
    let db = hero_database();
    let mut world = World::new();
    let e = hero_entity(&mut world, 0, 0);
    let mut system = AnimationSystem;
    let mut seen = Vec::new();
    for _ in 0..3 {
        system.run(&db, &mut world);
        seen.push(world.animation_of(e).unwrap().index);
    }
    assert_eq!(seen, vec![1, 2, 0]);
}

#[test]
fn end_to_end_hero_walk_cycle() {
    let db = hero_database();
    let mut world = World::new();
    let e = hero_entity(&mut world, 2, 2);
    let mut system = AnimationSystem;
    let mut indexes = Vec::new();
    for _ in 0..6 {
        system.run(&db, &mut world);
        indexes.push(world.animation_of(e).unwrap().index);
    }
    assert_eq!(indexes, vec![0, 1, 1, 2, 2, 0]);
    let visual = world.visual_of(e).unwrap();
    assert_eq!(visual.sprite_location, (1, 1));
}

#[test]
fn animation_writes_the_new_frame_into_the_visual() {
    let db = hero_database();
    let mut world = World::new();
    let e = hero_entity(&mut world, 0, 0);
    let mut system = AnimationSystem;
    system.run(&db, &mut world);
    assert_eq!(world.visual_of(e).unwrap().sprite_location, (1, 2));
}

#[test]
fn unknown_animation_name_falls_back_to_first_cell() {
    let db = hero_database();
    let mut world = World::new();
    let e = world.create_entity();
    world.insert(
        e,
        Attribute::Visual(VisualComponent {
            sprite_sheet_name: "hero".to_string(),
            sprite_location: (3, 3),
        }),
    );
    world.insert(
        e,
        Attribute::Animation(AnimationComponent {
            name: "no such animation".to_string(),
            index: 0,
            speed: 0,
            timer: 0,
        }),
    );
    let mut system = AnimationSystem;
    system.run(&db, &mut world);
    assert_eq!(world.visual_of(e).unwrap().sprite_location, (1, 1));
    assert_eq!(world.animation_of(e).unwrap().index, 0);
}

#[test]
fn missing_atlas_stops_the_entity_animating() {
    let db = AssetDatabase::new();
    let mut world = World::new();
    let e = hero_entity(&mut world, 2, 1);
    let mut system = AnimationSystem;
    system.run(&db, &mut world);
    let anim = world.animation_of(e).unwrap();
    assert_eq!(anim.index, 0);
    assert_eq!(anim.timer, 2);
    assert_eq!(world.visual_of(e).unwrap().sprite_location, (1, 1));
}

#[test]
fn animation_set_resets_index_and_timer_mid_cycle() {
    let mut anim = AnimationComponent::new(5);
    anim.index = 3;
    anim.timer = 1;
    anim.set("walk left");
    assert_eq!(anim.name, "walk left");
    assert_eq!(anim.index, 0);
    assert_eq!(anim.timer, 5);
    anim.index = 2;
    anim.set("walk left");
    assert_eq!(anim.index, 2);
}

#[test]
fn diagonal_movement_splits_speed_between_axes() {
    let mut world = World::new();
    let e = moving_entity(&mut world, 10);
    let mut system = PlayerControlSystem;
    system.run(&flags(false, true, true, false), &mut world);
    assert_eq!(world.position_of(e).unwrap().map_pos, (105, 95));
}

#[test]
fn straight_movement_gets_full_speed() {
    let mut world = World::new();
    let e = moving_entity(&mut world, 10);
    let mut system = PlayerControlSystem;
    system.run(&flags(false, true, false, false), &mut world);
    assert_eq!(world.position_of(e).unwrap().map_pos, (110, 100));
}

#[test]
fn direction_priority_reads_raw_flags_even_when_axes_cancel() {
    let mut world = World::new();
    let e = moving_entity(&mut world, 10);
    let mut system = PlayerControlSystem;
    system.run(&flags(true, true, true, false), &mut world);
    let anim = world.animation_of(e).unwrap();
    assert_eq!(anim.name, "walk right");
    assert_eq!(world.position_of(e).unwrap().map_pos, (100, 90));
}

#[test]
fn no_flags_selects_idle_and_stands_still() {
    let mut world = World::new();
    let e = moving_entity(&mut world, 10);
    let mut anim = world.animation_of(e).unwrap();
    anim.set("walk left");
    world.insert(e, Attribute::Animation(anim));
    let mut system = PlayerControlSystem;
    system.run(&flags(false, false, false, false), &mut world);
    let anim = world.animation_of(e).unwrap();
    assert_eq!(anim.name, "idle");
    assert_eq!(world.position_of(e).unwrap().map_pos, (100, 100));
}

#[test]
fn odd_speed_diagonal_halves_round_down() {
    let mut world = World::new();
    let e = moving_entity(&mut world, 5);
    let mut system = PlayerControlSystem;
    system.run(&flags(false, true, true, false), &mut world);
    assert_eq!(world.position_of(e).unwrap().map_pos, (102, 98));
}

#[test]
fn movement_saturates_at_the_coordinate_limits() {
    let mut world = World::new();
    let e = world.create_entity();
    world.insert(
        e,
        Attribute::Position(PositionComponent { map_pos: (i64::MAX - 2, i64::MIN + 2) }),
    );
    world.insert(e, Attribute::Controller(PlayerControlComponent { speed: 10 }));
    world.insert(e, Attribute::Animation(AnimationComponent::new(0)));
    let mut system = PlayerControlSystem;
    system.run(&flags(false, true, true, false), &mut world);
    assert_eq!(world.position_of(e).unwrap().map_pos, (i64::MAX, i64::MIN));
}

#[test]
fn empty_animation_holds_the_first_cell() {
    let mut sheet = SpriteSheet::new(96, 96, 3, 3);
    sheet.add_animation("still".to_string(), Vec::new());
    let mut db = AssetDatabase::new();
    db.add_asset("hero".to_string(), AssetContainer::Spritesheet(sheet));
    let mut world = World::new();
    let e = world.create_entity();
    world.insert(
        e,
        Attribute::Visual(VisualComponent {
            sprite_sheet_name: "hero".to_string(),
            sprite_location: (2, 2),
        }),
    );
    world.insert(
        e,
        Attribute::Animation(AnimationComponent {
            name: "still".to_string(),
            index: 0,
            speed: 0,
            timer: 0,
        }),
    );
    let mut system = AnimationSystem;
    system.run(&db, &mut world);
    assert_eq!(world.visual_of(e).unwrap().sprite_location, (1, 1));
    assert_eq!(world.animation_of(e).unwrap().index, 0);
}

#[test]
fn render_enqueues_one_draw_per_visible_entity() {
    let mut db = hero_database();
    let mut world = World::new();
    let e = world.create_entity();
    world.insert(e, Attribute::Position(PositionComponent { map_pos: (100, 100) }));
    world.insert(
        e,
        Attribute::Visual(VisualComponent {
            sprite_sheet_name: "hero".to_string(),
            sprite_location: (1, 2),
        }),
    );
    // an entity whose sheet is missing is skipped silently
    let stray = world.create_entity();
    world.insert(stray, Attribute::Position(PositionComponent { map_pos: (0, 0) }));
    world.insert(
        stray,
        Attribute::Visual(VisualComponent {
            sprite_sheet_name: "nowhere".to_string(),
            sprite_location: (1, 1),
        }),
    );
    let mut system = RenderSystem;
    system.run(&mut db, &world);
    let batches = db.flush_all_batches();
    assert_eq!(batches.len(), 1);
    assert_eq!(batches[0].0, "hero");
    assert_eq!(batches[0].1.len(), 1);
    let command = batches[0].1[0];
    assert_eq!(command.x, 100);
    assert_eq!(command.y, 100);
    assert_eq!(command.source_x, 32);
    assert_eq!(command.source_y, 0);
    assert_eq!(command.source_width, 32);
    assert_eq!(command.source_height, 32);
}
