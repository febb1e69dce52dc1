//! The failures that password generation can report.

use vstd::prelude::*;
use vstd::string::StringExecFns;

verus! {

/// Why a generation request could not be served.
#[derive(Copy, Clone, Debug, PartialEq, Eq, Structural)]
pub enum GenerationError {
    /// More distinct words were asked for than the corpus holds.
    CorpusExhausted,
    /// The weights handed to a weighted choice do not describe a distribution.
    InvalidWeightConfiguration,
}

impl GenerationError {
    /// The text of the error's message.
    pub open spec fn message_text(self) -> Seq<char> {
        match self {
            GenerationError::CorpusExhausted => {
                "requested more distinct words than the corpus holds"@
            },
            GenerationError::InvalidWeightConfiguration => {
                "character class weights do not form a distribution"@
            },
        }
    }

    /// A human-readable description of the error.
    pub fn message(&self) -> (text: String)
        ensures
            text@ == self.message_text(),
    {
        match self {
            GenerationError::CorpusExhausted => String::from_str(
                "requested more distinct words than the corpus holds",
            ),
            GenerationError::InvalidWeightConfiguration => String::from_str(
                "character class weights do not form a distribution",
            ),
        }
    }
}

} // verus!
