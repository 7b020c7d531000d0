//! The entity-component core: component types, the component store with its
//! entity world, the three per-frame systems, and the phase scheduler that
//! runs them.

use vstd::prelude::*;

pub mod scheduler;
pub use scheduler::{AccessFlags, Phase, Scheduler, SystemId};

pub mod world;
pub use world::{AttrSet, AttrType, Attribute, World};

pub mod position_component;
pub use position_component::PositionComponent;

pub mod control_components;
pub use control_components::PlayerControlComponent;

pub mod render_system;
pub use render_system::RenderSystem;

pub mod animation_system;
pub use animation_system::AnimationSystem;

pub mod player_control_system;
pub use player_control_system::PlayerControlSystem;

pub mod gfx_components;
pub use gfx_components::{AnimationComponent, VisualComponent};

pub mod visible_component;
pub use visible_component::VisibleComponent;

use crate::ecs::gfx_components::{AnimationView, VisualView};
use crate::ecs::world::RowView;

verus! {

/// A schedule with no phases: a placeholder for pure-data update work
/// that has no systems yet.
pub fn build_data_dispatcher() -> (scheduler: Scheduler)
    ensures
        scheduler@ == Seq::<Seq<SystemId>>::empty(),
{
    Scheduler::new()
}

/// The input-handling schedule: one phase running the movement system.
pub fn build_input_handling_dispatcher() -> (scheduler: Scheduler)
    ensures
        scheduler@ == seq![seq![SystemId::PlayerControl]],
{
    let mut scheduler = Scheduler::new();
    let phase = scheduler.add_phase();
    let added = scheduler.add_system(phase, SystemId::PlayerControl);
    proof {
        assert(added);
        assert(scheduler@ =~~= seq![seq![SystemId::PlayerControl]]);
    }
    scheduler
}

/// The render schedule: one phase running the animation system and the
/// render system. Their declared write sets are disjoint — animation
/// writes visuals and animation states, render writes the asset
/// registry — so the phase admits both.
pub fn build_render_dispatcher() -> (scheduler: Scheduler)
    ensures
        scheduler@ == seq![seq![SystemId::Animation, SystemId::Render]],
{
    let mut scheduler = Scheduler::new();
    let phase = scheduler.add_phase();
    let first = scheduler.add_system(phase, SystemId::Animation);
    let second = scheduler.add_system(phase, SystemId::Render);
    proof {
        assert(first && second);
        assert(scheduler@ =~~= seq![seq![SystemId::Animation, SystemId::Render]]);
    }
    scheduler
}

/// The attribute row of the demonstration player entity: steerable at
/// speed 5, drawn from the "sara-atlas" sheet.
pub open spec fn test_player_row() -> RowView {
    RowView {
        position: Some(PositionComponent { map_pos: (100, 100) }),
        visual: Some(
            VisualView { sprite_sheet_name: "sara-atlas"@, sprite_location: (1, 1) },
        ),
        animation: Some(AnimationView { name: "idle"@, index: 0, speed: 5, timer: 5 }),
        control: Some(PlayerControlComponent { speed: 5 }),
    }
}

/// The attribute row of the demonstration bystander entity: visible but
/// neither steered nor animated.
pub open spec fn test_bystander_row() -> RowView {
    RowView {
        position: Some(PositionComponent { map_pos: (500, 500) }),
        visual: Some(
            VisualView { sprite_sheet_name: "sara-atlas"@, sprite_location: (5, 1) },
        ),
        animation: None,
        control: None,
    }
}

/// Populates the world with the two demonstration entities: the player
/// and a bystander.
pub fn create_test_entities(world: &mut World)
    ensures
        final(world)@ == old(world)@.push(test_player_row()).push(test_bystander_row()),
{
    let player = world.create_entity();
    let _ = world.insert(
        player,
        Attribute::Controller(PlayerControlComponent { speed: 5 }),
    );
    let _ = world.insert(player, Attribute::Position(PositionComponent { map_pos: (100, 100) }));
    let _ = world.insert(
        player,
        Attribute::Visual(
            VisualComponent {
                sprite_sheet_name: "sara-atlas".to_owned(),
                sprite_location: (1, 1),
            },
        ),
    );
    let _ = world.insert(player, Attribute::Animation(AnimationComponent::new(5)));

    let bystander = world.create_entity();
    let _ = world.insert(
        bystander,
        Attribute::Position(PositionComponent { map_pos: (500, 500) }),
    );
    let _ = world.insert(
        bystander,
        Attribute::Visual(
            VisualComponent {
                sprite_sheet_name: "sara-atlas".to_owned(),
                sprite_location: (5, 1),
            },
        ),
    );
    proof {
        assert(final(world)@ =~= old(world)@.push(test_player_row()).push(
            test_bystander_row(),
        ));
    }
}

} // verus!
