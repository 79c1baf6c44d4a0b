//! The random number generator of the game engine, as far as the game uses
//! it. What this file states of it is taken on trust.
use vstd::prelude::*;
use bracket_lib::prelude::RandomNumberGenerator;

verus! {

/// The engine's generator. Its state is opaque here.
#[verifier::external_type_specification]
#[verifier::external_body]
pub struct ExRandomNumberGenerator(RandomNumberGenerator);

/// `RandomNumberGenerator::new`: a generator seeded from the operating
/// system's random source, or from the clock where that fails. Nothing is
/// claimed of the generator that comes back.
#[verifier::external_body]
pub(crate) fn fresh_generator() -> (generator: RandomNumberGenerator) {
    RandomNumberGenerator::new()
}

/// `RandomNumberGenerator::range` at `i32`: a draw from the half-open range
/// that includes `low` and excludes `high`. The only claim is that the draw
/// lies in that range; the outside function panics on an empty range, which
/// the precondition leaves out.
#[verifier::external_body]
pub(crate) fn draw_in_range(generator: &mut RandomNumberGenerator, low: i32, high: i32) -> (drawn:
    i32)
    requires
        low < high,
    ensures
        low <= drawn < high,
{
    generator.range(low, high)
}

} // verus!
