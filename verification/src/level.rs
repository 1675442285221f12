//! Compression levels offered to a client.

use vstd::prelude::*;

verus! {

/// How strongly a document is compressed.
#[derive(Clone, Copy, Debug, PartialEq, Eq, Structural)]
pub enum CompressionLevel {
    Low,
    Medium,
    High,
}

/// The lower-case form that `str::to_lowercase` gives to a text.
pub uninterp spec fn lowercase(s: Seq<char>) -> Seq<char>;

/// Calls `str::to_lowercase`; the contract names the returned text.
#[verifier::external_body]
fn to_lowercase(s: &str) -> (r: String)
    ensures
        r@ == lowercase(s@),
{
    s.to_lowercase()
}

/// The level that an already lower-cased word stands for: `low` and `high`
/// name their levels, every other word means `Medium`.
pub open spec fn level_of_word(word: Seq<char>) -> CompressionLevel {
    if word == "low"@ {
        CompressionLevel::Low
    } else if word == "high"@ {
        CompressionLevel::High
    } else {
        CompressionLevel::Medium
    }
}

impl CompressionLevel {
    /// The name of the level as it is written on the wire.
    pub open spec fn name(self) -> Seq<char> {
        match self {
            CompressionLevel::Low => "Low"@,
            CompressionLevel::Medium => "Medium"@,
            CompressionLevel::High => "High"@,
        }
    }

    /// The wire name of the level.
    pub fn as_str(&self) -> (r: &'static str)
        ensures
            r@ == self.name(),
    {
        match self {
            CompressionLevel::Low => "Low",
            CompressionLevel::Medium => "Medium",
            CompressionLevel::High => "High",
        }
    }

    /// Reads a level from a word that is already in lower case.
    pub fn from_lowercase(word: &str) -> (r: CompressionLevel)
        ensures
            r == level_of_word(word@),
    {
        let given = String::from_str(word);
        if given == String::from_str("low") {
            CompressionLevel::Low
        } else if given == String::from_str("high") {
            CompressionLevel::High
        } else {
            CompressionLevel::Medium
        }
    }
}

impl From<&str> for CompressionLevel {
    /// Reads a level from a word, whatever its case.
    fn from(s: &str) -> (r: CompressionLevel) {
        let lowered = to_lowercase(s);
        CompressionLevel::from_lowercase(lowered.as_str())
    }
}

impl vstd::std_specs::convert::FromSpecImpl<&str> for CompressionLevel {
    open spec fn obeys_from_spec() -> bool {
        true
    }

    open spec fn from_spec(s: &str) -> CompressionLevel {
        level_of_word(lowercase(s@))
    }
}

} // verus!
