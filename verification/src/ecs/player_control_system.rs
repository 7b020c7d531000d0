use vstd::prelude::*;
use crate::ecs::gfx_components::set_animation;
use crate::ecs::position_component::PositionComponent;
use crate::ecs::world::{RowView, World};
use crate::game_state::playing_state::ControlData;

verus! {

/// Net horizontal input direction: +1 right, -1 left, 0 when neither or
/// both flags are set — opposing flags cancel.
pub open spec fn x_axis(c: ControlData) -> int {
    (if c.move_right {
        1int
    } else {
        0int
    }) - (if c.move_left {
        1int
    } else {
        0int
    })
}

/// Net vertical input direction: +1 down, -1 up; screen coordinates grow
/// downward.
pub open spec fn y_axis(c: ControlData) -> int {
    (if c.move_down {
        1int
    } else {
        0int
    }) - (if c.move_up {
        1int
    } else {
        0int
    })
}

/// How many map units each moving axis advances this tick: a diagonal
/// move splits the speed evenly between the two axes, halves rounding
/// down; a straight move gets the full speed on its one axis.
pub open spec fn axis_scale(c: ControlData, speed: u32) -> int {
    if x_axis(c) != 0 && y_axis(c) != 0 {
        speed as int / 2
    } else {
        speed as int
    }
}

/// The animation the movement system selects, from the raw input flags,
/// by the fixed priority right, left, down, up, idle: the first set flag
/// wins. Priority reads the raw flags, not the net displacement, so
/// opposing flags that cancel all movement still select the first
/// pressed direction's walk animation — a quirk of the control scheme,
/// kept on purpose.
pub open spec fn walk_name(c: ControlData) -> Seq<char> {
    if c.move_right {
        "walk right"@
    } else if c.move_left {
        "walk left"@
    } else if c.move_down {
        "walk down"@
    } else if c.move_up {
        "walk up"@
    } else {
        "idle"@
    }
}

/// Addition on one map coordinate, saturating at the coordinate type's
/// own limits; the world itself imposes no bounds.
pub open spec fn saturating_add_i64(a: i64, b: int) -> i64 {
    if a + b > i64::MAX {
        i64::MAX
    } else if a + b < i64::MIN {
        i64::MIN
    } else {
        (a + b) as i64
    }
}

/// Where a controlled entity stands after one movement tick: the
/// position moves additively by the per-axis displacement.
pub open spec fn moved_position(p: PositionComponent, c: ControlData, speed: u32) -> PositionComponent {
    PositionComponent {
        map_pos: (
            saturating_add_i64(p.map_pos.0, x_axis(c) * axis_scale(c, speed)),
            saturating_add_i64(p.map_pos.1, y_axis(c) * axis_scale(c, speed)),
        ),
    }
}

/// Opposing flags cancel for displacement only: with left and right both
/// pressed and up the one live axis, the horizontal displacement is 0
/// and the vertical axis gets the full speed upward — the move is not a
/// diagonal — while the selected animation is still "walk right",
/// because priority resolves against the raw flags, not against the net
/// displacement.
pub proof fn lemma_opposing_flags_cancel(p: PositionComponent, c: ControlData, speed: u32)
    requires
        c.move_left,
        c.move_right,
        c.move_up,
        !c.move_down,
    ensures
        x_axis(c) == 0,
        y_axis(c) == -1,
        axis_scale(c, speed) == speed as int,
        walk_name(c) == "walk right"@,
        moved_position(p, c, speed).map_pos.0 == p.map_pos.0,
        moved_position(p, c, speed).map_pos.1 == saturating_add_i64(
            p.map_pos.1,
            -(speed as int),
        ),
{
}

/// One entity's row after the movement system's tick: an entity holding
/// position, controller and animation moves and switches its animation;
/// any other row is untouched.
pub open spec fn control_row_step(r: RowView, c: ControlData) -> RowView {
    match (r.position, r.control, r.animation) {
        (Some(p), Some(ctrl), Some(a)) => RowView {
            position: Some(moved_position(p, c, ctrl.speed)),
            animation: Some(set_animation(a, walk_name(c))),
            ..r
        },
        _ => r,
    }
}

/// The whole world after the movement system's tick, entity by entity.
pub open spec fn control_sys_spec(w: Seq<RowView>, c: ControlData) -> Seq<RowView> {
    Seq::new(w.len(), |e: int| control_row_step(w[e], c))
}

/// The movement system: consumes the shared control flags and each
/// controlled entity's speed, selects a walk animation by flag priority,
/// and moves the entity's position additively.
pub struct PlayerControlSystem;

impl PlayerControlSystem {
    /// One full pass over the component store. Declared access: reads the
    /// shared control flags and each controller; writes positions and
    /// animation states.
    pub fn run(&mut self, control_data: &ControlData, world: &mut World)
        ensures
            final(world)@ == control_sys_spec(old(world)@, *control_data),
    {
        let c = *control_data;
        let n = world.num_entities();
        let mut e: usize = 0;
        while e < n
            invariant
                c == *control_data,
                world@.len() == n,
                n == old(world)@.len(),
                e <= n,
                forall|j: int| e <= j < n ==> #[trigger] world@[j] == old(world)@[j],
                forall|j: int|
                    0 <= j < e ==> #[trigger] world@[j] == control_row_step(
                        old(world)@[j],
                        c,
                    ),
            decreases n - e,
        {
            let pos = world.position_of(e);
            let ctrl = world.controller_of(e);
            let anim = world.animation_of(e);
            match (pos, ctrl, anim) {
                (Some(p), Some(ctrl), Some(mut anim)) => {
                    let dx_axis: i64 = (if c.move_right {
                        1i64
                    } else {
                        0i64
                    }) - (if c.move_left {
                        1i64
                    } else {
                        0i64
                    });
                    let dy_axis: i64 = (if c.move_down {
                        1i64
                    } else {
                        0i64
                    }) - (if c.move_up {
                        1i64
                    } else {
                        0i64
                    });
                    let scale: u32 = if dx_axis != 0 && dy_axis != 0 {
                        ctrl.speed / 2
                    } else {
                        ctrl.speed
                    };
                    let dx: i64 = if dx_axis > 0 {
                        scale as i64
                    } else if dx_axis < 0 {
                        -(scale as i64)
                    } else {
                        0i64
                    };
                    let dy: i64 = if dy_axis > 0 {
                        scale as i64
                    } else if dy_axis < 0 {
                        -(scale as i64)
                    } else {
                        0i64
                    };
                    proof {
                        let ax = x_axis(c);
                        let ay = y_axis(c);
                        let s = axis_scale(c, ctrl.speed);
                        assert(dx_axis as int == ax);
                        assert(dy_axis as int == ay);
                        assert(scale as int == s);
                        assert(ax * s == (if ax == 1 {
                            s
                        } else if ax == -1 {
                            -s
                        } else {
                            0int
                        })) by (nonlinear_arith)
                            requires
                                ax == 1 || ax == -1 || ax == 0,
                        ;
                        assert(ay * s == (if ay == 1 {
                            s
                        } else if ay == -1 {
                            -s
                        } else {
                            0int
                        })) by (nonlinear_arith)
                            requires
                                ay == 1 || ay == -1 || ay == 0,
                        ;
                        assert(dx == ax * s);
                        assert(dy == ay * s);
                    }
                    let nx: i64 = if dx >= 0 {
                        if p.map_pos.0 > i64::MAX - dx {
                            i64::MAX
                        } else {
                            p.map_pos.0 + dx
                        }
                    } else {
                        if p.map_pos.0 < i64::MIN - dx {
                            i64::MIN
                        } else {
                            p.map_pos.0 + dx
                        }
                    };
                    let ny: i64 = if dy >= 0 {
                        if p.map_pos.1 > i64::MAX - dy {
                            i64::MAX
                        } else {
                            p.map_pos.1 + dy
                        }
                    } else {
                        if p.map_pos.1 < i64::MIN - dy {
                            i64::MIN
                        } else {
                            p.map_pos.1 + dy
                        }
                    };
                    if c.move_right {
                        anim.set("walk right");
                    } else if c.move_left {
                        anim.set("walk left");
                    } else if c.move_down {
                        anim.set("walk down");
                    } else if c.move_up {
                        anim.set("walk up");
                    } else {
                        anim.set("idle");
                    }
                    world.set_position(e, PositionComponent { map_pos: (nx, ny) });
                    world.set_animation(e, anim);
                    proof {
                        assert(world@[e as int] == control_row_step(old(world)@[e as int], c));
                    }
                },
                _ => {
                    proof {
                        assert(control_row_step(old(world)@[e as int], c) == old(
                            world,
                        )@[e as int]);
                    }
                },
            }
            e = e + 1;
        }
        proof {
            assert(world@ =~= control_sys_spec(old(world)@, c));
        }
    }
}

} // verus!
