//! The snake state machine: the ordered body, the heading, the per-tick
//! advance, growth, and self-collision truncation.

use vstd::prelude::*;
use crate::collision::{cell_box, overlaps, spec_cell_box, spec_overlaps};
use crate::grid::{spec_wrap, Position, CELL_SIZE, HALF_EXTENT};

verus! {

/// The snake's heading. There is no idle or diagonal heading.
#[derive(Clone, Copy, PartialEq, Eq, Structural, Debug)]
pub enum Direction {
    Up,
    Down,
    Left,
    Right,
}

/// Horizontal step, in world units, of one advance along `d`.
pub open spec fn spec_dx(d: Direction) -> int {
    match d {
        Direction::Up => 0,
        Direction::Down => 0,
        Direction::Left => -CELL_SIZE as int,
        Direction::Right => CELL_SIZE as int,
    }
}

/// Vertical step, in world units, of one advance along `d`.
pub open spec fn spec_dy(d: Direction) -> int {
    match d {
        Direction::Up => CELL_SIZE as int,
        Direction::Down => -CELL_SIZE as int,
        Direction::Left => 0,
        Direction::Right => 0,
    }
}

/// One body piece: the render handle the host knows the piece by, and
/// the position the simulation has assigned to it.
#[derive(Clone, Copy, PartialEq, Eq, Structural, Debug)]
pub struct Segment {
    pub handle: u64,
    pub pos: Position,
}

/// Where a head at `p` moves in one step along `d`: one cell in that
/// direction, wrapped per axis.
pub open spec fn spec_next_head(p: Position, d: Direction) -> Position {
    Position {
        x: spec_wrap(p.x + spec_dx(d)) as i32,
        y: spec_wrap(p.y + spec_dy(d)) as i32,
    }
}

/// The body after one advance along `d`: the tail segment's handle is
/// rotated to the front and takes the new head position; everyone else
/// keeps its place, so each remaining segment now stands where its
/// predecessor stood.
pub open spec fn spec_advanced(b: Seq<Segment>, d: Direction) -> Seq<Segment>
    recommends
        b.len() >= 1,
{
    seq![(Segment { handle: b.last().handle, pos: spec_next_head(b[0].pos, d) })] + b.drop_last()
}

/// Does the head's box overlap the box of some other segment?
pub open spec fn spec_self_hit(b: Seq<Segment>) -> bool {
    exists|i: int|
        1 <= i < b.len() && spec_overlaps(b[0].pos, spec_cell_box(), b[i].pos, spec_cell_box())
}

/// The one controllable creature: its heading and its ordered body.
/// The first segment is the head, the last the tail.
pub struct Snake {
    pub dir: Direction,
    pub body: Vec<Segment>,
}

impl Snake {
    /// The body is never empty once the snake exists.
    pub open spec fn wf(self) -> bool {
        self.body@.len() >= 1
    }

    /// A fresh one-segment snake: its head sits at the origin and it
    /// heads right.
    pub fn new(head_handle: u64) -> (s: Snake)
        ensures
            s.wf(),
            s.body@.len() == 1,
            s.body@[0].handle == head_handle,
            s.body@[0].pos == (Position { x: 0, y: 0 }),
            s.dir == Direction::Right,
    {
        let mut body: Vec<Segment> = Vec::new();
        body.push(Segment { handle: head_handle, pos: Position { x: 0, y: 0 } });
        Snake { dir: Direction::Right, body }
    }

    /// Overwrite the heading. No reversal lock: turning straight into
    /// the neck is allowed and simply invites a self-collision.
    pub fn set_direction(&mut self, dir: Direction)
        ensures
            final(self).dir == dir,
            final(self).body@ == old(self).body@,
    {
        self.dir = dir;
    }

    /// Move the snake one cell along its heading.
    ///
    /// The tail's handle is rotated to the front and receives the newly
    /// computed head position (on a one-segment body that is the same
    /// segment updated in place). The length never changes, and every
    /// segment but the head ends up exactly where its predecessor was.
    pub fn advance(&mut self)
        requires
            old(self).wf(),
        ensures
            final(self).wf(),
            final(self).dir == old(self).dir,
            final(self).body@ == spec_advanced(old(self).body@, old(self).dir),
            final(self).body@.len() == old(self).body@.len(),
            final(self).body@[0].pos == spec_next_head(old(self).body@[0].pos, old(self).dir),
            forall|i: int|
                1 <= i < final(self).body@.len() ==> final(self).body@[i].pos == old(
                    self,
                ).body@[i - 1].pos,
    {
        let new_head = next_head_position(self.body[0].pos, self.dir);
        let tail = self.body.pop().unwrap();
        let seg = Segment { handle: tail.handle, pos: new_head };
        if self.body.len() == 0 {
            self.body.push(seg);
        } else {
            self.body.insert(0, seg);
        }
        proof {
            assert(self.body@ =~= spec_advanced(old(self).body@, old(self).dir));
        }
    }

    /// Append one segment with the given handle at the given position
    /// to the tail end; nothing else moves.
    pub fn grow(&mut self, handle: u64, at: Position)
        ensures
            final(self).body@ == old(self).body@.push((Segment { handle, pos: at })),
            final(self).body@.len() == old(self).body@.len() + 1,
            final(self).dir == old(self).dir,
    {
        self.body.push(Segment { handle, pos: at });
    }

    /// Shrink the body back to the head alone, which keeps its place,
    /// and hand back the handles of the destroyed segments in body
    /// order. A no-op on a one-segment body.
    pub fn truncate_to_head(&mut self) -> (removed: Vec<u64>)
        requires
            old(self).wf(),
        ensures
            final(self).wf(),
            final(self).dir == old(self).dir,
            final(self).body@.len() == 1,
            final(self).body@[0] == old(self).body@[0],
            removed@.len() == old(self).body@.len() - 1,
            forall|i: int|
                0 <= i < removed@.len() ==> removed@[i] == old(self).body@[i + 1].handle,
    {
        let mut removed: Vec<u64> = Vec::new();
        let mut i: usize = 1;
        while i < self.body.len()
            invariant
                self.wf(),
                self.body@ == old(self).body@,
                self.dir == old(self).dir,
                1 <= i <= self.body@.len(),
                removed@.len() == i - 1,
                forall|j: int| 0 <= j < removed@.len() ==> removed@[j] == self.body@[j + 1].handle,
            decreases self.body@.len() - i,
        {
            removed.push(self.body[i].handle);
            i += 1;
        }
        self.body.truncate(1);
        removed
    }

    /// One self-collision check: if the head's box overlaps any other
    /// segment's box, truncate the body to the head and return the
    /// destroyed handles; otherwise change nothing and return none.
    pub fn self_collision_step(&mut self) -> (removed: Vec<u64>)
        requires
            old(self).wf(),
        ensures
            final(self).wf(),
            final(self).dir == old(self).dir,
            spec_self_hit(old(self).body@) ==> {
                &&& final(self).body@.len() == 1
                &&& final(self).body@[0] == old(self).body@[0]
                &&& removed@.len() == old(self).body@.len() - 1
                &&& forall|i: int|
                    0 <= i < removed@.len() ==> removed@[i] == old(self).body@[i + 1].handle
            },
            !spec_self_hit(old(self).body@) ==> {
                &&& final(self).body@ == old(self).body@
                &&& removed@.len() == 0
            },
    {
        let head_pos = self.body[0].pos;
        let mut i: usize = 1;
        while i < self.body.len()
            invariant
                self.wf(),
                self.body@ == old(self).body@,
                self.dir == old(self).dir,
                1 <= i,
                head_pos == self.body@[0].pos,
                forall|j: int|
                    1 <= j < i ==> !spec_overlaps(
                        self.body@[0].pos,
                        spec_cell_box(),
                        self.body@[j].pos,
                        spec_cell_box(),
                    ),
            decreases self.body@.len() - i,
        {
            if overlaps(head_pos, cell_box(), self.body[i].pos, cell_box()) {
                proof {
                    assert(spec_overlaps(
                        self.body@[0].pos,
                        spec_cell_box(),
                        self.body@[i as int].pos,
                        spec_cell_box(),
                    ));
                    assert(spec_self_hit(self.body@));
                }
                return self.truncate_to_head();
            }
            i += 1;
        }
        Vec::new()
    }
}

/// One step of the head: one cell along `dir`, each axis wrapped.
pub fn next_head_position(current: Position, dir: Direction) -> (r: Position)
    ensures
        r == spec_next_head(current, dir),
{
    let x = wrap_wide(current.x as i64 + direction_dx(dir) as i64);
    let y = wrap_wide(current.y as i64 + direction_dy(dir) as i64);
    Position { x, y }
}

/// Horizontal component of one step along `d`.
pub fn direction_dx(d: Direction) -> (r: i32)
    ensures
        r as int == spec_dx(d),
{
    match d {
        Direction::Up => 0,
        Direction::Down => 0,
        Direction::Left => -CELL_SIZE,
        Direction::Right => CELL_SIZE,
    }
}

/// Vertical component of one step along `d`.
pub fn direction_dy(d: Direction) -> (r: i32)
    ensures
        r as int == spec_dy(d),
{
    match d {
        Direction::Up => CELL_SIZE,
        Direction::Down => -CELL_SIZE,
        Direction::Left => 0,
        Direction::Right => 0,
    }
}

/// Wrap a coordinate that may have stepped just past an edge. Wide
/// arithmetic keeps the step itself from overflowing.
fn wrap_wide(c: i64) -> (r: i32)
    ensures
        r as int == spec_wrap(c as int),
{
    if c > HALF_EXTENT as i64 {
        -HALF_EXTENT
    } else if c < -(HALF_EXTENT as i64) {
        HALF_EXTENT
    } else {
        c as i32
    }
}

} // verus!
