use vstd::prelude::*;

verus! {

#[verifier::external_type_specification]
#[verifier::external_body]
pub struct ExStdRng(rand::rngs::StdRng);

/// An explicitly passed, seedable random source: the one supplier of
/// nondeterminism in the simulation.
pub struct SimRng {
    rng: rand::rngs::StdRng,
}

impl SimRng {
    /// Relies on rand::rngs::StdRng and SeedableRng::seed_from_u64: a
    /// deterministic generator built from a plain seed.  Nothing is claimed
    /// of the values it will produce.
    #[verifier::external_body]
    pub fn new(seed: u64) -> (r: SimRng) {
        SimRng { rng: rand::SeedableRng::seed_from_u64(seed) }
    }

    /// Relies on rand::Rng::gen_range over lo..hi: a value of the nonempty
    /// half-open range; it panics exactly on an empty range, which the
    /// precondition excludes.
    #[verifier::external_body]
    pub fn gen_range_i64(&mut self, lo: i64, hi: i64) -> (r: i64)
        requires
            lo < hi,
        ensures
            lo <= r < hi,
    {
        rand::Rng::gen_range(&mut self.rng, lo..hi)
    }

    /// Relies on rand::Rng::gen_range over lo..hi, as gen_range_i64 does,
    /// at the index type.
    #[verifier::external_body]
    pub fn gen_range_usize(&mut self, lo: usize, hi: usize) -> (r: usize)
        requires
            lo < hi,
        ensures
            lo <= r < hi,
    {
        rand::Rng::gen_range(&mut self.rng, lo..hi)
    }
}

} // verus!
