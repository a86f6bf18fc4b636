//! One frame of the game, in the fixed order the simulation promises:
//! sample input, tick the timer, and on a fire advance the snake, then
//! resolve self-collision, then the food check.

use vstd::prelude::*;
use crate::collision::{cell_box, overlaps, spec_cell_box, spec_overlaps};
use crate::frog::{spawn_frog, spec_frog_coord, Frog};
use crate::grid::{Position, HALF_EXTENT};
use crate::snake::{spec_advanced, spec_self_hit, Direction, Segment, Snake};
use crate::tick::TickTimer;

verus! {

/// Coordinate of the staging corner, one full field past the edge.
pub const STAGING_COORD: i32 = 2 * HALF_EXTENT;

/// Where a freshly grown tail segment is parked until the next advance
/// pulls it onto the field: well outside the play field, so it can
/// collide with nothing.
pub open spec fn spec_staging_pos() -> Position {
    Position { x: STAGING_COORD, y: STAGING_COORD }
}

/// The staging corner, for the executable growth step.
pub fn staging_position() -> (p: Position)
    ensures
        p == spec_staging_pos(),
{
    Position { x: STAGING_COORD, y: STAGING_COORD }
}

/// The heading after one frame of input: the sampled key wins, and
/// without input the old heading stands.
pub open spec fn spec_new_dir(d: Direction, input: Option<Direction>) -> Direction {
    match input {
        Some(nd) => nd,
        None => d,
    }
}

/// A body after its self-collision check: cut back to the head when the
/// head box overlaps another segment's box, untouched otherwise.
pub open spec fn spec_after_self(b: Seq<Segment>) -> Seq<Segment> {
    if spec_self_hit(b) {
        seq![b[0]]
    } else {
        b
    }
}

/// Does the snake's head box overlap the frog's box?
pub fn head_hits_frog(snake: &Snake, frog: &Frog) -> (r: bool)
    requires
        snake.wf(),
    ensures
        r == spec_overlaps(snake.body@[0].pos, spec_cell_box(), frog.pos, spec_cell_box()),
{
    overlaps(snake.body[0].pos, cell_box(), frog.pos, cell_box())
}

/// One food-collision check. On an overlap of head and frog the snake
/// grows one staged tail segment under the given fresh handle, the
/// eaten frog makes way for a fresh one under the other given handle at
/// a random in-bounds cell, and the eaten frog's handle comes back so
/// the host can destroy its entity. Without an overlap nothing changes.
pub fn frog_collision_step(
    snake: &mut Snake,
    frog: &mut Frog,
    new_segment_handle: u64,
    new_frog_handle: u64,
) -> (eaten: Option<u64>)
    requires
        old(snake).wf(),
    ensures
        final(snake).wf(),
        final(snake).dir == old(snake).dir,
        spec_overlaps(old(snake).body@[0].pos, spec_cell_box(), old(frog).pos, spec_cell_box())
            ==> {
            &&& final(snake).body@ == old(snake).body@.push(
                (Segment { handle: new_segment_handle, pos: spec_staging_pos() }),
            )
            &&& final(frog).handle == new_frog_handle
            &&& spec_frog_coord(final(frog).pos.x as int)
            &&& spec_frog_coord(final(frog).pos.y as int)
            &&& eaten == Some(old(frog).handle)
        },
        !spec_overlaps(old(snake).body@[0].pos, spec_cell_box(), old(frog).pos, spec_cell_box())
            ==> {
            &&& final(snake).body@ == old(snake).body@
            &&& *final(frog) == *old(frog)
            &&& eaten == None::<u64>
        },
{
    if head_hits_frog(snake, frog) {
        let eaten_handle = frog.handle;
        snake.grow(new_segment_handle, staging_position());
        *frog = spawn_frog(new_frog_handle);
        Some(eaten_handle)
    } else {
        None
    }
}

/// What one frame did, for the host to mirror: whether the timer fired
/// and the snake advanced, the handles of segments destroyed by a
/// self-collision, and the handle of the eaten frog, if any.
pub struct TickEffects {
    pub advanced: bool,
    pub removed_segments: Vec<u64>,
    pub eaten_frog: Option<u64>,
}

/// The body a fired tick leaves behind, before any growth: one advance
/// along the new heading, then the self-collision cut.
pub open spec fn spec_ticked_body(b: Seq<Segment>, d: Direction) -> Seq<Segment>
    recommends
        b.len() >= 1,
{
    spec_after_self(spec_advanced(b, d))
}

/// Does the head eat the frog on this tick: its box, after advance and
/// self-collision cut, overlaps the frog's box.
pub open spec fn spec_tick_ate(b: Seq<Segment>, d: Direction, frog_pos: Position) -> bool
    recommends
        b.len() >= 1,
{
    spec_overlaps(spec_ticked_body(b, d)[0].pos, spec_cell_box(), frog_pos, spec_cell_box())
}

/// One frame of the fixed per-frame order: input sampling, then the
/// tick-gated advance, then the self-collision check, then the food
/// check. The heading is updated every frame; the body, the frog and
/// the effects move only on a fired tick.
pub fn frame_update(
    snake: &mut Snake,
    frog: &mut Frog,
    timer: &mut TickTimer,
    delta_ms: u64,
    input: Option<Direction>,
    new_segment_handle: u64,
    new_frog_handle: u64,
) -> (fx: TickEffects)
    requires
        old(snake).wf(),
        old(timer).wf(),
        old(timer).acc_ms + delta_ms <= u64::MAX,
    ensures
        final(snake).wf(),
        final(timer).wf(),
        final(timer).interval_ms == old(timer).interval_ms,
        final(snake).dir == spec_new_dir(old(snake).dir, input),
        fx.advanced == (old(timer).acc_ms + delta_ms >= old(timer).interval_ms),
        fx.advanced ==> final(timer).acc_ms == old(timer).acc_ms + delta_ms - old(
            timer,
        ).interval_ms,
        !fx.advanced ==> {
            &&& final(timer).acc_ms == old(timer).acc_ms + delta_ms
            &&& final(snake).body@ == old(snake).body@
            &&& *final(frog) == *old(frog)
            &&& fx.removed_segments@.len() == 0
            &&& fx.eaten_frog == None::<u64>
        },
        fx.advanced ==> {
            let d = spec_new_dir(old(snake).dir, input);
            let ticked = spec_ticked_body(old(snake).body@, d);
            let ate = spec_tick_ate(old(snake).body@, d, old(frog).pos);
            &&& final(snake).body@ == if ate {
                ticked.push((Segment { handle: new_segment_handle, pos: spec_staging_pos() }))
            } else {
                ticked
            }
            &&& ate ==> {
                &&& final(frog).handle == new_frog_handle
                &&& spec_frog_coord(final(frog).pos.x as int)
                &&& spec_frog_coord(final(frog).pos.y as int)
                &&& fx.eaten_frog == Some(old(frog).handle)
            }
            &&& !ate ==> {
                &&& *final(frog) == *old(frog)
                &&& fx.eaten_frog == None::<u64>
            }
            &&& spec_self_hit(spec_advanced(old(snake).body@, d)) ==> {
                &&& fx.removed_segments@.len() == old(snake).body@.len() - 1
                &&& forall|i: int|
                    0 <= i < fx.removed_segments@.len() ==> fx.removed_segments@[i] == old(
                        snake,
                    ).body@[i].handle
            }
            &&& !spec_self_hit(spec_advanced(old(snake).body@, d)) ==> fx.removed_segments@.len()
                == 0
        },
{
    if let Some(d) = input {
        snake.set_direction(d);
    }
    let fired = timer.tick(delta_ms);
    if !fired {
        return TickEffects { advanced: false, removed_segments: Vec::new(), eaten_frog: None };
    }
    let ghost b1 = spec_advanced(old(snake).body@, spec_new_dir(old(snake).dir, input));
    snake.advance();
    let removed = snake.self_collision_step();
    proof {
        if spec_self_hit(b1) {
            assert(snake.body@ =~= spec_after_self(b1));
        }
    }
    let eaten = frog_collision_step(snake, frog, new_segment_handle, new_frog_handle);
    TickEffects { advanced: true, removed_segments: removed, eaten_frog: eaten }
}

} // verus!
