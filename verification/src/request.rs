//! Generation requests: the parameters of one password, and the generator
//! that serves them.

use vstd::prelude::*;
use rand::rngs::StdRng;
use crate::corpus::WordCorpus;
use crate::error::GenerationError;
use crate::memorable::{memorable_password, memorable_run};
use crate::pin::{pin_password, pin_run};
use crate::random::{random_password, random_run};
use crate::separator::Separator;
use crate::source::RandomSource;
use crate::strength::PasswordKind;

verus! {

/// The parameters of one password.
#[derive(Copy, Clone, Debug, PartialEq, Eq, Structural)]
pub enum GenerationRequest {
    /// Words from the corpus, joined by separators.
    Memorable { word_count: usize, separator: Separator, capitalize: bool, scramble: bool },
    /// Characters drawn from the enabled classes.
    Random { characters: u32, numbers: bool, symbols: bool },
    /// Decimal digits.
    Pin { digits: u32 },
}

impl GenerationRequest {
    /// The kind of password that the request asks for.
    pub open spec fn kind_of(self) -> PasswordKind {
        match self {
            GenerationRequest::Memorable { .. } => PasswordKind::Memorable,
            GenerationRequest::Random { .. } => PasswordKind::Random,
            GenerationRequest::Pin { .. } => PasswordKind::Pin,
        }
    }

    /// Whether `corpus` holds enough words to serve the request.
    pub open spec fn served_by(self, corpus: Seq<Seq<char>>) -> bool {
        match self {
            GenerationRequest::Memorable { word_count, .. } => word_count <= corpus.len(),
            _ => true,
        }
    }

    /// The password that serves the request when the source is in `state`,
    /// and the state in which generating it leaves the source.
    pub open spec fn run(self, corpus: Seq<Seq<char>>, state: StdRng) -> (Seq<char>, StdRng) {
        match self {
            GenerationRequest::Memorable {
                word_count,
                separator,
                capitalize,
                scramble,
            } => memorable_run(corpus, state, word_count as nat, separator, capitalize, scramble),
            GenerationRequest::Random { characters, numbers, symbols } => random_run(
                state,
                characters as nat,
                numbers,
                symbols,
            ),
            GenerationRequest::Pin { digits } => pin_run(state, digits as nat),
        }
    }

    /// The kind of password that the request asks for.
    pub fn kind(&self) -> (kind: PasswordKind)
        ensures
            kind == self.kind_of(),
    {
        match self {
            GenerationRequest::Memorable { .. } => PasswordKind::Memorable,
            GenerationRequest::Random { .. } => PasswordKind::Random,
            GenerationRequest::Pin { .. } => PasswordKind::Pin,
        }
    }
}

/// Serves `request` with the generator of its kind.  Only a memorable
/// password reads `corpus`, and only it can fail: with `CorpusExhausted`,
/// without drawing, exactly when the corpus holds too few words.
pub fn generate(
    rng: &mut RandomSource,
    corpus: &WordCorpus,
    request: GenerationRequest,
) -> (result: Result<String, GenerationError>)
    ensures
        result is Ok <==> request.served_by(corpus@),
        result matches Ok(password) ==> (password@, final(rng).state()) == request.run(
            corpus@,
            old(rng).state(),
        ),
        result matches Err(error) ==> error == GenerationError::CorpusExhausted
            && final(rng).state() == old(rng).state(),
{
    match request {
        GenerationRequest::Memorable {
            word_count,
            separator,
            capitalize,
            scramble,
        } => memorable_password(rng, corpus, word_count, separator, capitalize, scramble),
        GenerationRequest::Random { characters, numbers, symbols } => Ok(
            random_password(rng, characters, numbers, symbols),
        ),
        GenerationRequest::Pin { digits } => Ok(pin_password(rng, digits)),
    }
}

} // verus!
