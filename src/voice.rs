//! Voice classification.

use vstd::prelude::*;

verus! {

/// Gender classification for voices
#[derive(Debug, Clone, Copy, PartialEq, Eq, Hash, Structural)]
pub enum Gender {
    /// Male voice
    Male,
    /// Female voice
    Female,
    /// Non-binary or neutral voice
    Neutral,
}

impl Gender {
    /// The gender's name.
    pub fn to_string(&self) -> (r: String)
        ensures
            r@ == match *self {
                Gender::Male => "Male"@,
                Gender::Female => "Female"@,
                Gender::Neutral => "Neutral"@,
            },
    {
        match self {
            Gender::Male => String::from_str("Male"),
            Gender::Female => String::from_str("Female"),
            Gender::Neutral => String::from_str("Neutral"),
        }
    }
}

/// Voice style characteristics
#[derive(Debug, Clone, Copy, PartialEq, Eq, Hash, Structural)]
pub enum VoiceStyle {
    /// Natural, conversational style
    Natural,
    /// Professional, formal style
    Professional,
    /// Expressive, emotional style
    Expressive,
    /// Calm, soothing style
    Calm,
    /// Energetic, enthusiastic style
    Energetic,
}

impl VoiceStyle {
    /// The style's name.
    pub fn to_string(&self) -> (r: String)
        ensures
            r@ == match *self {
                VoiceStyle::Natural => "Natural"@,
                VoiceStyle::Professional => "Professional"@,
                VoiceStyle::Expressive => "Expressive"@,
                VoiceStyle::Calm => "Calm"@,
                VoiceStyle::Energetic => "Energetic"@,
            },
    {
        match self {
            VoiceStyle::Natural => String::from_str("Natural"),
            VoiceStyle::Professional => String::from_str("Professional"),
            VoiceStyle::Expressive => String::from_str("Expressive"),
            VoiceStyle::Calm => String::from_str("Calm"),
            VoiceStyle::Energetic => String::from_str("Energetic"),
        }
    }
}

} // verus!
