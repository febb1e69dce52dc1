//! Generation of memorable, random and PIN passwords from an injected
//! randomness source, with every generator's result stated as a function of
//! the source's state and the request.

pub mod alphabet;
pub mod arrangement;
pub mod bounds;
pub mod corpus;
pub mod determinism;
pub mod error;
pub mod memorable;
pub mod pin;
pub mod random;
pub mod request;
pub mod selector;
pub mod separator;
pub mod source;
pub mod strength;
pub mod text;
pub mod transform;

pub use crate::alphabet::CharacterClass;
pub use crate::bounds::{validate_character_count, validate_pin_length, validate_word_count};
pub use crate::corpus::WordCorpus;
pub use crate::error::GenerationError;
pub use crate::memorable::memorable_password;
pub use crate::pin::pin_password;
pub use crate::random::random_password;
pub use crate::request::{generate, GenerationRequest};
pub use crate::selector::get_random_words;
pub use crate::separator::Separator;
pub use crate::source::RandomSource;
pub use crate::strength::{PasswordKind, PasswordStrength};
