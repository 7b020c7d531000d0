use jrpg_core::assets::{ingest_sprite_sheet, AssetDatabase, SpriteSheetConfig};
use jrpg_core::ecs::{
    build_data_dispatcher, build_input_handling_dispatcher, build_render_dispatcher, Phase,
    Scheduler, SystemId,
};
use jrpg_core::game_state::{
    menu_event_for, GameMode, GameState, PlayingState, StateEvent, UIAction,
};

#[test]
fn menu_actions_map_to_state_events() {
    assert_eq!(
        menu_event_for(Some(UIAction::NewGame)),
        StateEvent::ChangeState(GameMode::Playing)
    );
    assert_eq!(menu_event_for(Some(UIAction::QuitGame)), StateEvent::Shutdown);
    assert_eq!(menu_event_for(Some(UIAction::LoadGame)), StateEvent::NoChange);
    assert_eq!(menu_event_for(None), StateEvent::NoChange);
}

#[test]
fn phase_refuses_overlapping_write_sets() {
    let mut phase = Phase::new();
    assert!(phase.add_system(SystemId::PlayerControl));
    // the movement and animation systems both write animation states
    assert!(!phase.add_system(SystemId::Animation));
    // the render system writes only the asset registry
    assert!(phase.add_system(SystemId::Render));
    assert_eq!(phase.num_systems(), 2);
    assert_eq!(phase.system_at(0), SystemId::PlayerControl);
    assert_eq!(phase.system_at(1), SystemId::Render);
}

#[test]
fn scheduler_refuses_unknown_phase() {
    let mut scheduler = Scheduler::new();
    assert!(!scheduler.add_system(0, SystemId::Render));
    let phase = scheduler.add_phase();
    assert!(scheduler.add_system(phase, SystemId::Render));
    assert_eq!(scheduler.num_phases(), 1);
}

#[test]
fn dispatchers_carry_the_standard_schedules() {
    assert_eq!(build_data_dispatcher().num_phases(), 0);
    assert_eq!(build_input_handling_dispatcher().num_phases(), 1);
    assert_eq!(build_render_dispatcher().num_phases(), 1);
}

fn sara_database() -> AssetDatabase {
    let mut db = AssetDatabase::new();
    let loaded = ingest_sprite_sheet(
        &mut db,
        SpriteSheetConfig {
            asset_id: "sara-atlas".to_string(),
            image_width: 100,
            image_height: 100,
            rows: 5,
            columns: 5,
            animations: vec![
                ("idle".to_string(), vec![(1, 1)]),
                ("walk right".to_string(), vec![(2, 1), (2, 2)]),
            ],
        },
    );
    assert!(loaded);
    db
}

#[test]
fn one_frame_moves_the_player_and_batches_both_entities() {
    let mut state = PlayingState::new(sara_database());
    state.set_input(false, true, false, false);
    let event = state.update();
    assert_eq!(event, StateEvent::NoChange);
    // interface logic batched both entities before movement ran
    let batches = state.asset_database.flush_all_batches();
    assert_eq!(batches.len(), 1);
    assert_eq!(batches[0].0, "sara-atlas");
    assert_eq!(batches[0].1.len(), 2);
    assert_eq!(batches[0].1[0].x, 100);
    assert_eq!(batches[0].1[0].y, 100);
    assert_eq!(batches[0].1[0].source_x, 0);
    assert_eq!(batches[0].1[0].source_y, 0);
    assert_eq!(batches[0].1[1].x, 500);
    assert_eq!(batches[0].1[1].y, 500);
    assert_eq!(batches[0].1[1].source_y, 4 * 20);
    // state logic then moved the steered player to the right at speed 5
    let player = state.world.position_of(0).expect("player position");
    assert_eq!(player.map_pos, (105, 100));
    assert_eq!(state.world.animation_of(0).expect("player animation").name, "walk right");
    // the bystander has no controller and stands still
    let bystander = state.world.position_of(1).expect("bystander position");
    assert_eq!(bystander.map_pos, (500, 500));
}

#[test]
fn frames_without_input_leave_positions_alone() {
    let mut state = PlayingState::new(sara_database());
    let first = state.update();
    let second = state.update();
    assert_eq!(first, StateEvent::NoChange);
    assert_eq!(second, StateEvent::NoChange);
    assert_eq!(state.world.position_of(0).expect("player").map_pos, (100, 100));
    assert_eq!(state.world.animation_of(0).expect("player").name, "idle");
}
