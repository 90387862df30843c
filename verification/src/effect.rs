use vstd::prelude::*;

verus! {

/// Why an effect, or a stack of them, could not produce an image.
#[derive(Debug)]
pub enum EffectError {
    InvalidParam(String),
    UnknownEffect(String),
    Cancelled,
    Plugin(String),
}

} // verus!

verus! {

/// Per-run settings handed to an effect: the seed for any randomized choice,
/// whether this is the cheap live preview, and `cancelled`, the check (a
/// closure in practice) that tells whether the run was cancelled.
pub struct EffectContext<C> {
    pub rng_seed: u64,
    pub preview: bool,
    pub cancelled: C,
}

} // verus!
