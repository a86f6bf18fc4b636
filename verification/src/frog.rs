//! The food item ("frog") and its spawner: one frog is live at a time,
//! placed on a random whole cell of the play field.

use vstd::prelude::*;
use rand::Rng;
use crate::grid::{Position, CELL_SIZE, HALF_EXTENT};

verus! {

/// The single live food item: the render handle the host knows it by,
/// and its position.
pub struct Frog {
    pub handle: u64,
    pub pos: Position,
}

/// A coordinate a frog can spawn at: a whole cell, scaled to world
/// units, from the in-bounds cell range (the topmost cell row and
/// rightmost column are excluded by the half-open draw).
pub open spec fn spec_frog_coord(c: int) -> bool {
    &&& -HALF_EXTENT <= c <= HALF_EXTENT - CELL_SIZE
    &&& c % (CELL_SIZE as int) == 0
}

/// The thread-local generator behind `rand::thread_rng`, opaque here.
#[verifier::external_type_specification]
#[verifier::external_body]
pub struct ExThreadRng(rand::rngs::ThreadRng);

/// Relies on rand::thread_rng: a fresh handle to the ambient
/// thread-local random number generator. Nothing is assumed of it.
#[verifier::external_body]
fn new_thread_rng() -> rand::rngs::ThreadRng {
    rand::thread_rng()
}

/// Relies on rand::Rng::gen_range over the half-open `i32` range
/// `lo..hi`: it returns a value of that range and panics only when the
/// range is empty, which the precondition rules out. Nothing is assumed
/// about which value comes back.
#[verifier::external_body]
fn random_in_range(rng: &mut rand::rngs::ThreadRng, lo: i32, hi: i32) -> (r: i32)
    requires
        lo < hi,
    ensures
        lo <= r < hi,
{
    rng.gen_range(lo..hi)
}

/// Create the frog for a fresh handle at a cell drawn at random: each
/// axis gets an integer cell from the half-open in-bounds range, scaled
/// to world units.
pub fn spawn_frog(handle: u64) -> (f: Frog)
    ensures
        f.handle == handle,
        spec_frog_coord(f.pos.x as int),
        spec_frog_coord(f.pos.y as int),
{
    let steps: i32 = HALF_EXTENT / CELL_SIZE;
    let mut rng = new_thread_rng();
    let cx = random_in_range(&mut rng, -steps, steps);
    let cy = random_in_range(&mut rng, -steps, steps);
    proof {
        vstd::arithmetic::div_mod::lemma_mod_multiples_basic(cx as int, CELL_SIZE as int);
        vstd::arithmetic::div_mod::lemma_mod_multiples_basic(cy as int, CELL_SIZE as int);
    }
    Frog { handle, pos: Position { x: cx * CELL_SIZE, y: cy * CELL_SIZE } }
}

} // verus!
