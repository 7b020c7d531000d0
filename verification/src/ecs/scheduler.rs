use vstd::prelude::*;
use crate::assets::asset_database::{AssetDatabase, ContainerView};
use crate::ecs::animation_system::{anim_sys_spec, AnimationSystem};
use crate::ecs::player_control_system::{control_sys_spec, PlayerControlSystem};
use crate::ecs::render_system::{render_upto, RenderSystem};
use crate::ecs::world::{RowView, World};
use crate::game_state::playing_state::ControlData;

verus! {

/// The data a system can declare access to: one flag per attribute kind
/// of the component store and per world-scoped shared resource.
#[derive(Clone, Copy, Debug, PartialEq, Eq, Structural)]
pub struct AccessFlags {
    pub position_attr: bool,
    pub visual_attr: bool,
    pub animation_attr: bool,
    pub controller_attr: bool,
    pub asset_registry: bool,
    pub control_data: bool,
}

/// The systems this scheduler can run.
#[derive(Clone, Copy, Debug, PartialEq, Eq, Structural)]
pub enum SystemId {
    PlayerControl,
    Animation,
    Render,
}

/// The write set each system declares: the movement system writes
/// positions and animation states; the animation system writes visuals
/// and animation states; the render system writes the asset registry,
/// whose sheets collect its draw batches. Everything else each system
/// touches, it only reads.
pub open spec fn spec_writes(s: SystemId) -> AccessFlags {
    match s {
        SystemId::PlayerControl => AccessFlags {
            position_attr: true,
            visual_attr: false,
            animation_attr: true,
            controller_attr: false,
            asset_registry: false,
            control_data: false,
        },
        SystemId::Animation => AccessFlags {
            position_attr: false,
            visual_attr: true,
            animation_attr: true,
            controller_attr: false,
            asset_registry: false,
            control_data: false,
        },
        SystemId::Render => AccessFlags {
            position_attr: false,
            visual_attr: false,
            animation_attr: false,
            controller_attr: false,
            asset_registry: true,
            control_data: false,
        },
    }
}

/// The declared write set, as a value.
pub fn writes(s: SystemId) -> (w: AccessFlags)
    ensures
        w == spec_writes(s),
{
    match s {
        SystemId::PlayerControl => AccessFlags {
            position_attr: true,
            visual_attr: false,
            animation_attr: true,
            controller_attr: false,
            asset_registry: false,
            control_data: false,
        },
        SystemId::Animation => AccessFlags {
            position_attr: false,
            visual_attr: true,
            animation_attr: true,
            controller_attr: false,
            asset_registry: false,
            control_data: false,
        },
        SystemId::Render => AccessFlags {
            position_attr: false,
            visual_attr: false,
            animation_attr: false,
            controller_attr: false,
            asset_registry: true,
            control_data: false,
        },
    }
}

/// Whether two systems' declared write sets share a target. Two systems
/// with overlapping write targets must not share a phase: within a phase
/// the scheduler guarantees no ordering, so each target may have at most
/// one writer per phase, while any number of systems may read it.
pub open spec fn writes_conflict(a: SystemId, b: SystemId) -> bool {
    let wa = spec_writes(a);
    let wb = spec_writes(b);
    ||| (wa.position_attr && wb.position_attr)
    ||| (wa.visual_attr && wb.visual_attr)
    ||| (wa.animation_attr && wb.animation_attr)
    ||| (wa.controller_attr && wb.controller_attr)
    ||| (wa.asset_registry && wb.asset_registry)
    ||| (wa.control_data && wb.control_data)
}

/// One unordered group of systems that runs to completion before the
/// next phase begins. Adding a system whose declared write set overlaps
/// one already in the phase is refused at build time, so the systems of
/// a phase can run in any interleaving — this implementation runs them
/// in insertion order on one thread, which the ordering contract allows.
pub struct Phase {
    systems: Vec<SystemId>,
}

impl View for Phase {
    type V = Seq<SystemId>;

    closed spec fn view(&self) -> Seq<SystemId> {
        self.systems@
    }
}

impl Phase {
    #[verifier::type_invariant]
    spec fn write_sets_disjoint(self) -> bool {
        forall|i: int, j: int|
            0 <= i < j < self@.len() ==> !writes_conflict(self@[i], self@[j])
    }

    pub fn new() -> (phase: Phase)
        ensures
            phase@ == Seq::<SystemId>::empty(),
    {
        Phase { systems: Vec::new() }
    }

    /// How many systems the phase holds.
    pub fn num_systems(&self) -> (n: usize)
        ensures
            n == self@.len(),
    {
        self.systems.len()
    }

    /// The system at the given place in insertion order.
    pub fn system_at(&self, i: usize) -> (s: SystemId)
        requires
            i < self@.len(),
        ensures
            s == self@[i as int],
    {
        self.systems[i]
    }

    /// Admits the system if its declared write set is disjoint from the
    /// write set of every system already in the phase, and refuses it
    /// otherwise: the build-time check behind the single-writer rule.
    pub fn add_system(&mut self, s: SystemId) -> (added: bool)
        ensures
            added == (forall|i: int|
                0 <= i < old(self)@.len() ==> !writes_conflict(old(self)@[i], s)),
            added ==> final(self)@ == old(self)@.push(s),
            !added ==> final(self)@ == old(self)@,
    {
        proof {
            use_type_invariant(&*self);
        }
        let w = writes(s);
        let n = self.systems.len();
        let mut i: usize = 0;
        while i < n
            invariant
                n == self@.len(),
                i <= n,
                w == spec_writes(s),
                forall|j: int| 0 <= j < i ==> !writes_conflict(self@[j], s),
            decreases n - i,
        {
            let o = writes(self.systems[i]);
            let conflict = (o.position_attr && w.position_attr) || (o.visual_attr
                && w.visual_attr) || (o.animation_attr && w.animation_attr) || (
            o.controller_attr && w.controller_attr) || (o.asset_registry && w.asset_registry)
                || (o.control_data && w.control_data);
            if conflict {
                return false;
            }
            i = i + 1;
        }
        let mut systems: Vec<SystemId> = Vec::new();
        core::mem::swap(&mut self.systems, &mut systems);
        systems.push(s);
        self.systems = systems;
        true
    }
}

/// The effect of one system's full pass on the world and the registry.
pub open spec fn apply_system(
    s: SystemId,
    w: Seq<RowView>,
    m: Map<Seq<char>, ContainerView>,
    c: ControlData,
) -> (Seq<RowView>, Map<Seq<char>, ContainerView>) {
    match s {
        SystemId::PlayerControl => (control_sys_spec(w, c), m),
        SystemId::Animation => (anim_sys_spec(w, m), m),
        SystemId::Render => (w, render_upto(w, m, w.len() as int)),
    }
}

/// The effect of running the first `n` systems of a phase in order.
pub open spec fn apply_systems(
    ss: Seq<SystemId>,
    w: Seq<RowView>,
    m: Map<Seq<char>, ContainerView>,
    c: ControlData,
    n: int,
) -> (Seq<RowView>, Map<Seq<char>, ContainerView>)
    decreases n,
{
    if n <= 0 {
        (w, m)
    } else {
        let prev = apply_systems(ss, w, m, c, n - 1);
        apply_system(ss[n - 1], prev.0, prev.1, c)
    }
}

/// The effect of running the first `n` phases in order: phase `k + 1`
/// starts from exactly the state phase `k` completed, never from a
/// partially applied one.
pub open spec fn apply_phases(
    ps: Seq<Seq<SystemId>>,
    w: Seq<RowView>,
    m: Map<Seq<char>, ContainerView>,
    c: ControlData,
    n: int,
) -> (Seq<RowView>, Map<Seq<char>, ContainerView>)
    decreases n,
{
    if n <= 0 {
        (w, m)
    } else {
        let prev = apply_phases(ps, w, m, c, n - 1);
        apply_systems(ps[n - 1], prev.0, prev.1, c, ps[n - 1].len() as int)
    }
}

/// An ordered list of phases, each an unordered group of systems with
/// disjoint declared write sets. Phases execute strictly in declared
/// order; a phase's systems all complete before the next phase begins.
pub struct Scheduler {
    phases: Vec<Phase>,
}

impl View for Scheduler {
    type V = Seq<Seq<SystemId>>;

    closed spec fn view(&self) -> Seq<Seq<SystemId>> {
        Seq::new(self.phases@.len(), |i: int| self.phases@[i]@)
    }
}

impl Scheduler {
    pub fn new() -> (scheduler: Scheduler)
        ensures
            scheduler@ == Seq::<Seq<SystemId>>::empty(),
    {
        let scheduler = Scheduler { phases: Vec::new() };
        proof {
            assert(scheduler@ =~= Seq::<Seq<SystemId>>::empty());
        }
        scheduler
    }

    /// How many phases the schedule holds.
    pub fn num_phases(&self) -> (n: usize)
        ensures
            n == self@.len(),
    {
        self.phases.len()
    }

    /// Appends a fresh, empty phase after the existing ones and returns
    /// its index.
    pub fn add_phase(&mut self) -> (index: usize)
        ensures
            index as int == old(self)@.len(),
            final(self)@ == old(self)@.push(Seq::<SystemId>::empty()),
    {
        let index = self.phases.len();
        self.phases.push(Phase::new());
        proof {
            assert(final(self)@ =~= old(self)@.push(Seq::<SystemId>::empty()));
        }
        index
    }

    /// Admits the system into the given phase if its declared write set
    /// conflicts with no system already there; refuses it otherwise, or
    /// when no such phase exists.
    pub fn add_system(&mut self, phase_index: usize, s: SystemId) -> (added: bool)
        ensures
            (phase_index as int) >= old(self)@.len() ==> !added && final(self)@ == old(self)@,
            (phase_index as int) < old(self)@.len() ==> {
                &&& added == (forall|i: int|
                    0 <= i < old(self)@[phase_index as int].len() ==> !writes_conflict(
                        old(self)@[phase_index as int][i],
                        s,
                    ))
                &&& added ==> final(self)@ == old(self)@.update(
                    phase_index as int,
                    old(self)@[phase_index as int].push(s),
                )
                &&& !added ==> final(self)@ == old(self)@
            },
    {
        if phase_index < self.phases.len() {
            let mut ph = Phase::new();
            core::mem::swap(&mut self.phases[phase_index], &mut ph);
            proof {
                assert(ph@ == old(self)@[phase_index as int]);
            }
            let added = ph.add_system(s);
            self.phases[phase_index] = ph;
            proof {
                if added {
                    assert(final(self)@ =~= old(self)@.update(
                        phase_index as int,
                        old(self)@[phase_index as int].push(s),
                    ));
                } else {
                    assert(final(self)@ =~= old(self)@);
                }
            }
            added
        } else {
            false
        }
    }

    /// Runs every phase in declared order, each phase's systems in
    /// insertion order, to completion: the resulting world and registry
    /// are exactly the phase-by-phase, system-by-system composition of
    /// the three systems' effects.
    pub fn run(
        &self,
        world: &mut World,
        asset_database: &mut AssetDatabase,
        control_data: &ControlData,
    )
        ensures
            final(world)@ == apply_phases(
                self@,
                old(world)@,
                old(asset_database)@,
                *control_data,
                self@.len() as int,
            ).0,
            final(asset_database)@ == apply_phases(
                self@,
                old(world)@,
                old(asset_database)@,
                *control_data,
                self@.len() as int,
            ).1,
    {
        let num_phases = self.phases.len();
        let mut p: usize = 0;
        while p < num_phases
            invariant
                num_phases == self@.len(),
                p <= num_phases,
                world@ == apply_phases(
                    self@,
                    old(world)@,
                    old(asset_database)@,
                    *control_data,
                    p as int,
                ).0,
                asset_database@ == apply_phases(
                    self@,
                    old(world)@,
                    old(asset_database)@,
                    *control_data,
                    p as int,
                ).1,
            decreases num_phases - p,
        {
            let ghost phase_world = world@;
            let ghost phase_assets = asset_database@;
            let phase = &self.phases[p];
            let num_systems = phase.num_systems();
            let mut s: usize = 0;
            while s < num_systems
                invariant
                    num_systems == phase@.len(),
                    s <= num_systems,
                    world@ == apply_systems(
                        phase@,
                        phase_world,
                        phase_assets,
                        *control_data,
                        s as int,
                    ).0,
                    asset_database@ == apply_systems(
                        phase@,
                        phase_world,
                        phase_assets,
                        *control_data,
                        s as int,
                    ).1,
                decreases num_systems - s,
            {
                match phase.system_at(s) {
                    SystemId::PlayerControl => {
                        let mut system = PlayerControlSystem;
                        system.run(control_data, world);
                    },
                    SystemId::Animation => {
                        let mut system = AnimationSystem;
                        system.run(asset_database, world);
                    },
                    SystemId::Render => {
                        let mut system = RenderSystem;
                        system.run(asset_database, world);
                    },
                }
                s = s + 1;
            }
            proof {
                assert(self@[p as int] == phase@);
            }
            p = p + 1;
        }
    }
}

} // verus!
