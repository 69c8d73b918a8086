use vstd::prelude::*;

verus! {

/// Declaration of the outside random number generator type, so that a
/// generator can be threaded through the shuffle as a plain parameter.
#[verifier::external_type_specification]
#[verifier::external_body]
pub struct ExStdRng(rand::rngs::StdRng);

/// Relies on rand::Rng::gen_range over the range 0..bound: yields a value
/// below `bound`. The call panics on an empty range, so `bound` must be
/// positive. Which value comes back depends on the generator's state, so
/// nothing more is claimed of it.
#[verifier::external_body]
pub(crate) fn rng_below(rng: &mut rand::rngs::StdRng, bound: usize) -> (r: usize)
    requires
        bound > 0,
    ensures
        r < bound,
{
    rand::Rng::gen_range(rng, 0..bound)
}

/// Relies on rand::Rng::gen_ratio: true with probability num/den. The call
/// panics when `den` is zero or `num` exceeds `den`, so those inputs are
/// excluded. Its documentation promises that num == den always yields true
/// and num == 0 always yields false; otherwise either value can come back.
#[verifier::external_body]
pub(crate) fn rng_ratio(rng: &mut rand::rngs::StdRng, num: u32, den: u32) -> (r: bool)
    requires
        den > 0,
        num <= den,
    ensures
        num == den ==> r,
        num == 0 ==> !r,
{
    rand::Rng::gen_ratio(rng, num, den)
}

} // verus!
