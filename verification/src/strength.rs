//! The labels under which a password and its estimated strength are
//! reported.

use vstd::prelude::*;
use vstd::string::StringExecFns;

verus! {

/// The kind of password that was generated.
#[derive(Copy, Clone, Debug, PartialEq, Eq, Structural)]
pub enum PasswordKind {
    Memorable,
    Random,
    Pin,
}

impl PasswordKind {
    /// The text of the kind's label.
    pub open spec fn label_text(self) -> Seq<char> {
        match self {
            PasswordKind::Memorable => "memorable"@,
            PasswordKind::Random => "random"@,
            PasswordKind::Pin => "pin"@,
        }
    }

    /// The kind's label, in lower case.
    pub fn label(&self) -> (text: String)
        ensures
            text@ == self.label_text(),
    {
        match self {
            PasswordKind::Memorable => String::from_str("memorable"),
            PasswordKind::Random => String::from_str("random"),
            PasswordKind::Pin => String::from_str("pin"),
        }
    }
}

/// The greatest score that a strength estimate gives.
pub const MAX_SCORE: u8 = 4;

/// How strong a password was estimated to be.
#[derive(Copy, Clone, Debug, PartialEq, Eq, Structural)]
pub enum PasswordStrength {
    VeryWeak,
    Weak,
    Reasonable,
    Strong,
    VeryStrong,
}

impl PasswordStrength {
    /// The strength that stands for `score`, from 0 for the weakest to 4 for
    /// the strongest.
    pub open spec fn of_score(score: u8) -> PasswordStrength {
        if score == 0 {
            PasswordStrength::VeryWeak
        } else if score == 1 {
            PasswordStrength::Weak
        } else if score == 2 {
            PasswordStrength::Reasonable
        } else if score == 3 {
            PasswordStrength::Strong
        } else {
            PasswordStrength::VeryStrong
        }
    }

    /// The text of the strength's label.
    pub open spec fn label_text(self) -> Seq<char> {
        match self {
            PasswordStrength::VeryWeak => "very weak"@,
            PasswordStrength::Weak => "weak"@,
            PasswordStrength::Reasonable => "reasonable"@,
            PasswordStrength::Strong => "strong"@,
            PasswordStrength::VeryStrong => "very strong"@,
        }
    }

    /// The strength that stands for a score between 0 and 4.
    pub fn from_score(score: u8) -> (strength: PasswordStrength)
        requires
            score <= MAX_SCORE,
        ensures
            strength == PasswordStrength::of_score(score),
    {
        match score {
            0 => PasswordStrength::VeryWeak,
            1 => PasswordStrength::Weak,
            2 => PasswordStrength::Reasonable,
            3 => PasswordStrength::Strong,
            _ => PasswordStrength::VeryStrong,
        }
    }

    /// The strength's label, in lower case.
    pub fn label(&self) -> (text: String)
        ensures
            text@ == self.label_text(),
    {
        match self {
            PasswordStrength::VeryWeak => String::from_str("very weak"),
            PasswordStrength::Weak => String::from_str("weak"),
            PasswordStrength::Reasonable => String::from_str("reasonable"),
            PasswordStrength::Strong => String::from_str("strong"),
            PasswordStrength::VeryStrong => String::from_str("very strong"),
        }
    }
}

} // verus!
