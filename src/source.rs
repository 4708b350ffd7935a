//! Sources of uniformly distributed indices.
use rand::distributions::Uniform;
use rand::rngs::ThreadRng;
use rand::Rng;
use rand_xorshift::XorShiftRng;
use vstd::prelude::*;

verus! {

#[verifier::external_type_specification]
#[verifier::external_body]
pub struct ExThreadRng(ThreadRng);

#[verifier::external_type_specification]
#[verifier::external_body]
pub struct ExXorShiftRng(XorShiftRng);

/// A mutable source of uniformly distributed indices. Each call is one draw
/// and advances the source.
pub trait RandomIndexSource {
    /// Draws an index uniformly from `[0, bound)`.
    fn uniform_index(&mut self, bound: u32) -> (r: u32)
        requires
            0 < bound,
        ensures
            r < bound,
    ;
}

impl RandomIndexSource for ThreadRng {
    fn uniform_index(&mut self, bound: u32) -> (r: u32) {
        secure_index(self, bound)
    }
}

impl RandomIndexSource for XorShiftRng {
    fn uniform_index(&mut self, bound: u32) -> (r: u32) {
        fast_index(self, bound)
    }
}

/// Relies on rand's `Uniform::from(0..bound)` sampled through `Rng::sample`
/// on the thread-local generator: a value in `[0, bound)`; the range must
/// not be empty.
#[verifier::external_body]
fn secure_index(rng: &mut ThreadRng, bound: u32) -> (r: u32)
    requires
        0 < bound,
    ensures
        r < bound,
{
    rng.sample(Uniform::from(0..bound))
}

/// Relies on rand's `Uniform::from(0..bound)` sampled through `Rng::sample`
/// on a xorshift generator: a value in `[0, bound)`; the range must not be
/// empty.
#[verifier::external_body]
fn fast_index(rng: &mut XorShiftRng, bound: u32) -> (r: u32)
    requires
        0 < bound,
    ensures
        r < bound,
{
    rng.sample(Uniform::from(0..bound))
}

/// Relies on `rand::thread_rng`: the calling thread's lazily seeded,
/// cryptographically secure generator.
#[verifier::external_body]
pub(crate) fn secure_source() -> ThreadRng {
    rand::thread_rng()
}

} // verus!
