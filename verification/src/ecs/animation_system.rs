use vstd::prelude::*;
use crate::assets::asset_database::{container_sheet, AssetContainer, AssetDatabase, ContainerView};
use crate::assets::sprite_sheet::{SheetView, SpritePos};
use crate::ecs::gfx_components::{AnimationComponent, AnimationView, VisualComponent, VisualView};
use crate::ecs::world::{RowView, World};

verus! {

/// The frame list an animation state reads: the named animation of the
/// named sheet, or the empty list when the sheet is missing an animation
/// of that name.
pub open spec fn frames_of(sheet: SheetView, name: Seq<char>) -> Seq<SpritePos> {
    if sheet.animation_sets.contains_key(name) {
        sheet.animation_sets[name]
    } else {
        Seq::empty()
    }
}

/// The frame index one advance step lands on: one past the current
/// index, wrapping to 0 at the end of the list; 0 for an empty list.
pub open spec fn advanced_index(index: int, frame_count: int) -> int {
    if frame_count == 0 {
        0
    } else if index + 1 >= frame_count {
        0
    } else {
        index + 1
    }
}

/// An advanced frame index is always a valid index into the frame list,
/// or 0 when the list is empty: advancing can never read out of range,
/// whatever index the state held before.
pub proof fn lemma_advanced_index_valid(index: int, frame_count: int)
    requires
        0 <= index,
        0 <= frame_count,
    ensures
        0 <= advanced_index(index, frame_count),
        frame_count > 0 ==> advanced_index(index, frame_count) < frame_count,
        frame_count == 0 ==> advanced_index(index, frame_count) == 0,
{
}

/// On a valid frame index, advancing is stepping by one modulo the
/// length of the frame list.
pub proof fn lemma_advanced_index_is_mod(index: int, frame_count: int)
    requires
        0 <= index < frame_count,
    ensures
        advanced_index(index, frame_count) == (index + 1) % frame_count,
{
    if index + 1 == frame_count {
        assert(frame_count % frame_count == 0) by (nonlinear_arith)
            requires
                frame_count > 0,
        ;
    } else {
        assert((index + 1) % frame_count == index + 1) by (nonlinear_arith)
            requires
                0 <= index + 1 < frame_count,
        ;
    }
}

/// One animation state after one tick against a resolved frame list of
/// `frame_count` frames: a timer above 1 counts down and holds the
/// frame; otherwise the state advances — the index wraps past the end of
/// the list and the timer refills to `speed`.
pub open spec fn anim_tick(a: AnimationView, frame_count: int) -> AnimationView {
    if a.timer > 1 {
        AnimationView { timer: a.timer - 1, ..a }
    } else {
        AnimationView { index: advanced_index(a.index, frame_count), timer: a.speed, ..a }
    }
}

/// One animation state after `n` ticks against the same frame list.
pub open spec fn anim_tick_n(a: AnimationView, frame_count: int, n: nat) -> AnimationView
    decreases n,
{
    if n == 0 {
        a
    } else {
        anim_tick(anim_tick_n(a, frame_count, (n - 1) as nat), frame_count)
    }
}

/// While an entity's sheet resolves, the animation system drives its
/// animation state exactly by `anim_tick` against the resolved frame
/// list.
pub proof fn lemma_row_step_ticks(r: RowView, assets: Map<Seq<char>, ContainerView>)
    ensures
        (match (r.visual, r.animation) {
            (Some(v), Some(a)) => (assets.contains_key(v.sprite_sheet_name)
                && assets[v.sprite_sheet_name] is Spritesheet) ==> anim_row_step(
                r,
                assets,
            ).animation == Some(
                anim_tick(
                    a,
                    frames_of(container_sheet(assets[v.sprite_sheet_name]), a.name).len() as int,
                ),
            ),
            _ => true,
        }),
{
}

/// With zero ticks-per-step and an expired timer, every animation tick
/// advances: against a resolved frame list of length at least 1 and a
/// valid index, one system step moves the frame index one forward modulo
/// the list length, writes the frame at the new index into the visual's
/// sprite location, leaves the timer expired so the next tick advances
/// again, and touches nothing else of the entity.
pub proof fn lemma_zero_hold_advances_every_tick(r: RowView, assets: Map<Seq<char>, ContainerView>)
    ensures
        (match (r.visual, r.animation) {
            (Some(v), Some(a)) => (assets.contains_key(v.sprite_sheet_name)
                && assets[v.sprite_sheet_name] is Spritesheet && a.speed == 0 && a.timer == 0
                && 0 <= a.index < frames_of(
                container_sheet(assets[v.sprite_sheet_name]),
                a.name,
            ).len()) ==> {
                let frames = frames_of(container_sheet(assets[v.sprite_sheet_name]), a.name);
                let next = (a.index + 1) % frames.len() as int;
                let stepped = anim_row_step(r, assets);
                &&& stepped.animation == Some(
                    AnimationView { name: a.name, index: next, speed: 0, timer: 0 },
                )
                &&& stepped.visual == Some(
                    VisualView {
                        sprite_sheet_name: v.sprite_sheet_name,
                        sprite_location: frames[next],
                    },
                )
                &&& stepped.position == r.position
                &&& stepped.control == r.control
            },
            _ => true,
        }),
{
    match (r.visual, r.animation) {
        (Some(v), Some(a)) => {
            if assets.contains_key(v.sprite_sheet_name)
                && assets[v.sprite_sheet_name] is Spritesheet {
                let frames = frames_of(container_sheet(assets[v.sprite_sheet_name]), a.name);
                if 0 <= a.index < frames.len() {
                    lemma_advanced_index_is_mod(a.index, frames.len() as int);
                }
            }
        },
        _ => {},
    }
}

proof fn lemma_wrap_cycle_steps(a: AnimationView, frame_count: int, k: nat)
    requires
        a.speed == 0,
        a.timer <= 1,
        0 <= a.index < frame_count,
        k <= frame_count,
    ensures
        anim_tick_n(a, frame_count, k) == (AnimationView {
            index: if a.index + k < frame_count {
                a.index + k
            } else {
                a.index + k - frame_count
            },
            timer: if k == 0 {
                a.timer
            } else {
                0int
            },
            ..a
        }),
    decreases k,
{
    if k > 0 {
        lemma_wrap_cycle_steps(a, frame_count, (k - 1) as nat);
    }
}

/// Animation wrap idempotence: a state that advances every tick (zero
/// ticks-per-step) walks an animation of `frame_count` frames one frame
/// per tick and, after exactly `frame_count` ticks, its frame index is
/// back where it started.
pub proof fn lemma_wrap_after_full_cycle(a: AnimationView, frame_count: int)
    requires
        a.speed == 0,
        a.timer <= 1,
        0 <= a.index < frame_count,
    ensures
        anim_tick_n(a, frame_count, frame_count as nat).index == a.index,
{
    lemma_wrap_cycle_steps(a, frame_count, frame_count as nat);
}

/// One entity's row after the animation system's tick. An entity holding
/// visual and animation attributes either holds (`timer` above 1: the
/// timer counts down, nothing else changes) or advances: the timer
/// refills to `speed`, and — when the visual's sheet resolves to a sprite
/// atlas — the frame index advances with wrap-around and the frame at the
/// new index lands in the visual's sprite location, `(1, 1)` when the
/// frame list is empty. When the sheet does not resolve, the entity
/// simply stops animating for this tick; no error surfaces.
pub open spec fn anim_row_step(r: RowView, assets: Map<Seq<char>, ContainerView>) -> RowView {
    match (r.visual, r.animation) {
        (Some(v), Some(a)) => {
            if a.timer > 1 {
                RowView { animation: Some(AnimationView { timer: a.timer - 1, ..a }), ..r }
            } else if assets.contains_key(v.sprite_sheet_name) && assets[v.sprite_sheet_name]
                is Spritesheet {
                let sheet = container_sheet(assets[v.sprite_sheet_name]);
                let frames = frames_of(sheet, a.name);
                let index = advanced_index(a.index, frames.len() as int);
                let location: SpritePos = if frames.len() == 0 {
                    (1, 1)
                } else {
                    frames[index]
                };
                RowView {
                    visual: Some(VisualView { sprite_location: location, ..v }),
                    animation: Some(AnimationView { index, timer: a.speed, ..a }),
                    ..r
                }
            } else {
                RowView { animation: Some(AnimationView { timer: a.speed, ..a }), ..r }
            }
        },
        _ => r,
    }
}

/// The whole world after the animation system's tick, entity by entity.
pub open spec fn anim_sys_spec(w: Seq<RowView>, assets: Map<Seq<char>, ContainerView>) -> Seq<
    RowView,
> {
    Seq::new(w.len(), |e: int| anim_row_step(w[e], assets))
}

/// The animation system: advances the sprite selection on sheets to make
/// an animation, one frame every `speed` ticks per animated entity.
pub struct AnimationSystem;

impl AnimationSystem {
    /// One full pass over the component store. Declared access: reads the
    /// asset registry; writes visuals and animation states.
    pub fn run(&mut self, asset_database: &AssetDatabase, world: &mut World)
        ensures
            final(world)@ == anim_sys_spec(old(world)@, asset_database@),
    {
        let n = world.num_entities();
        let mut e: usize = 0;
        while e < n
            invariant
                world@.len() == n,
                n == old(world)@.len(),
                e <= n,
                forall|j: int| e <= j < n ==> #[trigger] world@[j] == old(world)@[j],
                forall|j: int|
                    0 <= j < e ==> #[trigger] world@[j] == anim_row_step(
                        old(world)@[j],
                        asset_database@,
                    ),
            decreases n - e,
        {
            let visual = world.visual_of(e);
            let animation = world.animation_of(e);
            match (visual, animation) {
                (Some(v), Some(a)) => {
                    if a.timer > 1 {
                        world.set_animation(
                            e,
                            AnimationComponent { timer: a.timer - 1, ..a },
                        );
                    } else {
                        match asset_database.get_asset(&v.sprite_sheet_name) {
                            AssetContainer::Spritesheet(sheet) => {
                                let frames = sheet.get_animation(&a.name);
                                let index: usize = if frames.len() == 0 {
                                    0
                                } else if a.index >= frames.len() - 1 {
                                    0
                                } else {
                                    a.index + 1
                                };
                                let location: SpritePos = if frames.len() == 0 {
                                    (1, 1)
                                } else {
                                    frames[index]
                                };
                                let speed = a.speed;
                                world.set_animation(
                                    e,
                                    AnimationComponent {
                                        name: a.name,
                                        index,
                                        speed,
                                        timer: speed,
                                    },
                                );
                                world.set_visual(
                                    e,
                                    VisualComponent {
                                        sprite_sheet_name: v.sprite_sheet_name,
                                        sprite_location: location,
                                    },
                                );
                            },
                            _ => {
                                world.set_animation(
                                    e,
                                    AnimationComponent { timer: a.speed, ..a },
                                );
                            },
                        }
                    }
                    proof {
                        assert(world@[e as int] == anim_row_step(
                            old(world)@[e as int],
                            asset_database@,
                        ));
                    }
                },
                _ => {},
            }
            e = e + 1;
        }
        proof {
            assert(world@ =~= anim_sys_spec(old(world)@, asset_database@));
        }
    }
}

} // verus!
