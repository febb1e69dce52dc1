//! Reproducibility: a password is a function of the source's state and of
//! the request.

use vstd::prelude::*;
use crate::request::GenerationRequest;
use crate::source::{seeded_state, RandomSource};

verus! {

/// Two sources that were made from the same seed, each on its own, generate
/// the same password for the same request and are left in the same state.
pub proof fn lemma_same_seed_same_password(
    first: RandomSource,
    second: RandomSource,
    seed: u64,
    corpus: Seq<Seq<char>>,
    request: GenerationRequest,
)
    requires
        first.state() == seeded_state(seed),
        second.state() == seeded_state(seed),
    ensures
        request.run(corpus, first.state()) == request.run(corpus, second.state()),
{
}

} // verus!
