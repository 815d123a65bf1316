//! Random choices made through macroquad's generator.
use vstd::prelude::*;

verus! {

/// Calls `macroquad::rand::gen_range::<i32>(0, bound)`.
/// The generator keeps global state, so only the range of the outcome is
/// stated: for `0 < bound` the value lies in `0 .. bound`.
#[verifier::external_body]
pub(crate) fn random_below(bound: i32) -> (r: i32)
    requires
        0 < bound,
    ensures
        0 <= r < bound,
{
    macroquad::rand::gen_range::<i32>(0, bound)
}

/// Picks an index below `count` at random, as `gen_range(0, count) as usize`.
pub fn random_index(count: i32) -> (r: usize)
    requires
        0 < count,
    ensures
        r < count,
{
    let v = random_below(count);
    v as usize
}

} // verus!
