//! Random placement: the one source of chance in the simulation.
//!
//! Chance comes from a generator of the `rand` crate that the caller owns and
//! hands in, so that a seeded generator makes a run repeatable.

use vstd::prelude::*;
use rand::rngs::OsRng;
use rand::rngs::StdRng;
use rand::Rng;
use rand::SeedableRng;
use std::ops::Range;
use crate::unit::position::Position;

verus! {

/// The generator of `rand` that the simulation draws from. Nothing is known
/// of its state.
#[verifier::external_type_specification]
#[verifier::external_body]
pub struct ExStdRng(StdRng);

/// Calls `StdRng::seed_from_u64`: a generator whose draws depend on `seed`
/// alone. Nothing is claimed of the generator.
#[verifier::external_body]
pub(crate) fn seeded_generator(seed: u64) -> (rng: StdRng) {
    StdRng::seed_from_u64(seed)
}

/// Calls `StdRng::from_rng` on the operating system's source of chance.
/// The result is `None` where that source fails; nothing else is claimed.
#[verifier::external_body]
pub(crate) fn system_generator() -> (rng: Option<StdRng>) {
    StdRng::from_rng(OsRng).ok()
}

/// Calls `Rng::gen_range` on a half-open range of `i32`. The call panics on
/// an empty range, which `requires` leaves out; the value drawn lies in the
/// range, its start included and its end not.
#[verifier::external_body]
pub(crate) fn draw(rng: &mut StdRng, range: Range<i32>) -> (v: i32)
    requires
        range.start < range.end,
    ensures
        range.start <= v < range.end,
{
    rng.gen_range(range)
}

/// Calls `Rng::gen_ratio` with one chance in two. Nothing is claimed of
/// which side comes up.
#[verifier::external_body]
pub(crate) fn toss(rng: &mut StdRng) -> (heads: bool) {
    rng.gen_ratio(1, 2)
}

/// Whether `p` lies in the rectangle of the two half-open ranges.
pub open spec fn in_ranges(p: Position<i32>, x_range: Range<i32>, y_range: Range<i32>) -> bool {
    &&& x_range.start <= p.x < x_range.end
    &&& y_range.start <= p.y < y_range.end
}

/// Draws a position whose `x` comes from `x_range` and whose `y` comes from
/// `y_range`, each on its own. An empty range is a fault of the caller.
pub fn draw_position(rng: &mut StdRng, x_range: Range<i32>, y_range: Range<i32>) -> (p: Position<
    i32,
>)
    requires
        x_range.start < x_range.end,
        y_range.start < y_range.end,
    ensures
        in_ranges(p, x_range, y_range),
{
    let x: i32 = draw(rng, x_range);
    let y: i32 = draw(rng, y_range);
    Position { x, y }
}

} // verus!
