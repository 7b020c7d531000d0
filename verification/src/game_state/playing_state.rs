use vstd::prelude::*;
use crate::assets::asset_database::AssetDatabase;
use crate::ecs::animation_system::anim_sys_spec;
use crate::ecs::player_control_system::control_sys_spec;
use crate::ecs::render_system::render_upto;
use crate::ecs::scheduler::{apply_phases, apply_system, apply_systems, Scheduler, SystemId};
use crate::ecs::world::World;
use crate::ecs::{
    build_data_dispatcher, build_input_handling_dispatcher, build_render_dispatcher,
    create_test_entities, test_bystander_row, test_player_row,
};
use crate::game_state::game_state::GameState;
use crate::game_state::state_event::StateEvent;

verus! {

/// Controller input values sampled once per tick and shared with the
/// systems that need them; the last writer in a tick wins.
#[derive(Clone, Copy, Debug, PartialEq, Eq, Structural)]
pub struct ControlData {
    pub move_left: bool,
    pub move_right: bool,
    pub move_up: bool,
    pub move_down: bool,
}

/// The state in which the game itself runs: it owns the entity world,
/// the loaded assets, the shared control flags, and the schedulers that
/// drive the systems each frame.
pub struct PlayingState {
    pub world: World,
    pub asset_database: AssetDatabase,
    pub control_data: ControlData,
    pub render_dispatcher: Scheduler,
    pub input_dispatcher: Scheduler,
    pub data_dispatcher: Scheduler,
}

impl PlayingState {
    /// The three schedules a playing state always carries: rendering
    /// runs animation advance before render enqueue in one phase, input
    /// handling runs the movement system, and the data schedule is
    /// empty.
    pub open spec fn dispatchers_standard(self) -> bool {
        &&& self.render_dispatcher@ == seq![seq![SystemId::Animation, SystemId::Render]]
        &&& self.input_dispatcher@ == seq![seq![SystemId::PlayerControl]]
        &&& self.data_dispatcher@ == Seq::<Seq<SystemId>>::empty()
    }

    /// A fresh playing state over an already-loaded asset registry: the
    /// world holds the demonstration entities, no direction is pressed,
    /// and the standard schedules are in place.
    pub fn new(asset_database: AssetDatabase) -> (state: PlayingState)
        ensures
            state.dispatchers_standard(),
            state.asset_database@ == asset_database@,
            state.world@ == Seq::empty().push(test_player_row()).push(test_bystander_row()),
            state.control_data == (ControlData {
                move_left: false,
                move_right: false,
                move_up: false,
                move_down: false,
            }),
    {
        let mut world = World::new();
        create_test_entities(&mut world);
        PlayingState {
            world,
            asset_database,
            control_data: ControlData {
                move_left: false,
                move_right: false,
                move_up: false,
                move_down: false,
            },
            render_dispatcher: build_render_dispatcher(),
            input_dispatcher: build_input_handling_dispatcher(),
            data_dispatcher: build_data_dispatcher(),
        }
    }

    /// Stores the direction flags the input source sampled this tick,
    /// overwriting last tick's; nothing else changes.
    pub fn set_input(&mut self, move_left: bool, move_right: bool, move_up: bool, move_down: bool)
        ensures
            final(self).control_data == (ControlData { move_left, move_right, move_up, move_down }),
            final(self).world == old(self).world,
            final(self).asset_database == old(self).asset_database,
            final(self).render_dispatcher == old(self).render_dispatcher,
            final(self).input_dispatcher == old(self).input_dispatcher,
            final(self).data_dispatcher == old(self).data_dispatcher,
    {
        self.control_data = ControlData { move_left, move_right, move_up, move_down };
    }

    /// Runs the render schedule: the animation system advances every
    /// animated entity, then the render system enqueues one draw per
    /// visible entity on its sheet's batch.
    pub fn run_render_phase(&mut self)
        requires
            old(self).dispatchers_standard(),
        ensures
            final(self).dispatchers_standard(),
            final(self).world@ == anim_sys_spec(old(self).world@, old(self).asset_database@),
            final(self).asset_database@ == render_upto(
                anim_sys_spec(old(self).world@, old(self).asset_database@),
                old(self).asset_database@,
                old(self).world@.len() as int,
            ),
            final(self).control_data == old(self).control_data,
            final(self).render_dispatcher == old(self).render_dispatcher,
            final(self).input_dispatcher == old(self).input_dispatcher,
            final(self).data_dispatcher == old(self).data_dispatcher,
    {
        let ghost w0 = self.world@;
        let ghost m0 = self.asset_database@;
        let ghost c = self.control_data;
        self.render_dispatcher.run(
            &mut self.world,
            &mut self.asset_database,
            &self.control_data,
        );
        proof {
            let ps = self.render_dispatcher@;
            assert(apply_systems(ps[0], w0, m0, c, 0) == (w0, m0));
            assert(apply_systems(ps[0], w0, m0, c, 1) == apply_system(
                SystemId::Animation,
                w0,
                m0,
                c,
            ));
            assert(apply_systems(ps[0], w0, m0, c, 2) == apply_system(
                SystemId::Render,
                anim_sys_spec(w0, m0),
                m0,
                c,
            ));
            assert(apply_phases(ps, w0, m0, c, 0) == (w0, m0));
            assert(apply_phases(ps, w0, m0, c, 1) == apply_systems(ps[0], w0, m0, c, 2));
        }
    }

    /// Runs the input schedule: the movement system consumes the stored
    /// control flags and moves every steered entity.
    pub fn run_input_phase(&mut self)
        requires
            old(self).dispatchers_standard(),
        ensures
            final(self).dispatchers_standard(),
            final(self).world@ == control_sys_spec(old(self).world@, old(self).control_data),
            final(self).asset_database@ == old(self).asset_database@,
            final(self).control_data == old(self).control_data,
            final(self).render_dispatcher == old(self).render_dispatcher,
            final(self).input_dispatcher == old(self).input_dispatcher,
            final(self).data_dispatcher == old(self).data_dispatcher,
    {
        let ghost w0 = self.world@;
        let ghost m0 = self.asset_database@;
        let ghost c = self.control_data;
        self.input_dispatcher.run(
            &mut self.world,
            &mut self.asset_database,
            &self.control_data,
        );
        proof {
            let ps = self.input_dispatcher@;
            assert(apply_systems(ps[0], w0, m0, c, 0) == (w0, m0));
            assert(apply_systems(ps[0], w0, m0, c, 1) == apply_system(
                SystemId::PlayerControl,
                w0,
                m0,
                c,
            ));
            assert(apply_phases(ps, w0, m0, c, 0) == (w0, m0));
            assert(apply_phases(ps, w0, m0, c, 1) == apply_systems(ps[0], w0, m0, c, 1));
        }
    }
}

impl GameState for PlayingState {
    open spec fn inv(&self) -> bool {
        self.dispatchers_standard()
    }

    /// The playing state's interface logic is the render schedule: the
    /// animation system advances every animated entity, then the render
    /// system batches one draw per visible entity.
    fn ui_logic(&mut self)
        ensures
            final(self).world@ == anim_sys_spec(old(self).world@, old(self).asset_database@),
            final(self).asset_database@ == render_upto(
                anim_sys_spec(old(self).world@, old(self).asset_database@),
                old(self).asset_database@,
                old(self).world@.len() as int,
            ),
            final(self).control_data == old(self).control_data,
    {
        self.run_render_phase();
    }

    /// The playing state's state logic is the input schedule: the
    /// movement system consumes the stored control flags; the playing
    /// state itself never asks for a state change.
    fn state_logic(&mut self) -> (event: StateEvent)
        ensures
            final(self).world@ == control_sys_spec(old(self).world@, old(self).control_data),
            final(self).asset_database@ == old(self).asset_database@,
            final(self).control_data == old(self).control_data,
            event == StateEvent::NoChange,
    {
        self.run_input_phase();
        StateEvent::NoChange
    }

    /// One playing frame: the render schedule first, then the input
    /// schedule on the unchanged control flags; the frame always reports
    /// no state change.
    fn update(&mut self) -> (event: StateEvent)
        ensures
            final(self).world@ == control_sys_spec(
                anim_sys_spec(old(self).world@, old(self).asset_database@),
                old(self).control_data,
            ),
            final(self).asset_database@ == render_upto(
                anim_sys_spec(old(self).world@, old(self).asset_database@),
                old(self).asset_database@,
                old(self).world@.len() as int,
            ),
            final(self).control_data == old(self).control_data,
            event == StateEvent::NoChange,
    {
        self.ui_logic();
        self.state_logic()
    }
}

} // verus!
