//! Named attributes shared by devices, mixers, channels and samples.

use vstd::prelude::*;
use vstd::string::StringExecFns;

verus! {

/// The attributes a node understands.  Gain-like values (volume, pan,
/// tempo, pitch) are carried in thousandths; the sample rate is carried in
/// hertz.
#[derive(Debug, Clone, Copy, PartialEq, Eq, Structural)]
pub enum AudioAttributes {
    Unknown,
    /// The sample rate of the audio channel, device or mixer.
    SampleRate,
    /// The volume of the audio channel, device or mixer.
    Volume,
    /// The pan of the audio channel, device or mixer.
    Pan,
    /// The pitch of the audio channel; needs [`AudioAttributes::AudioFX`]
    /// enabled.
    FXPitch,
    /// The tempo of the audio channel; needs [`AudioAttributes::AudioFX`]
    /// enabled.
    FXTempo,
    /// Enables or disables the tempo/pitch stage.
    AudioFX,
    /// Enables or disables 3-D spatialization.
    AudioSpatialization,
}

/// The attribute a name denotes; unrecognised names denote `Unknown`.
pub open spec fn spec_attribute_from(name: Seq<char>) -> AudioAttributes {
    if name == "SampleRate"@ {
        AudioAttributes::SampleRate
    } else if name == "Volume"@ {
        AudioAttributes::Volume
    } else if name == "Pan"@ {
        AudioAttributes::Pan
    } else if name == "FXPitch"@ {
        AudioAttributes::FXPitch
    } else if name == "FXTempo"@ {
        AudioAttributes::FXTempo
    } else {
        AudioAttributes::Unknown
    }
}

/// The name under which an attribute travels.
pub open spec fn spec_attribute_name(attribute: AudioAttributes) -> Seq<char> {
    match attribute {
        AudioAttributes::SampleRate => "SampleRate"@,
        AudioAttributes::Volume => "Volume"@,
        AudioAttributes::Pan => "Pan"@,
        AudioAttributes::FXPitch => "FXPitch"@,
        AudioAttributes::FXTempo => "FXTempo"@,
        AudioAttributes::AudioFX => "AudioFX"@,
        AudioAttributes::AudioSpatialization => "AudioSpatialization"@,
        AudioAttributes::Unknown => "Unknown"@,
    }
}

impl AudioAttributes {
    /// Parses an attribute name; only the value attributes have names on
    /// this path, as the toggles travel through the boolean setters.
    pub fn from(name: &str) -> (r: Self)
        ensures
            r == spec_attribute_from(name@),
    {
        let owned = String::from_str(name);
        if owned == String::from_str("SampleRate") {
            AudioAttributes::SampleRate
        } else if owned == String::from_str("Volume") {
            AudioAttributes::Volume
        } else if owned == String::from_str("Pan") {
            AudioAttributes::Pan
        } else if owned == String::from_str("FXPitch") {
            AudioAttributes::FXPitch
        } else if owned == String::from_str("FXTempo") {
            AudioAttributes::FXTempo
        } else {
            AudioAttributes::Unknown
        }
    }

    /// The attribute's name.
    pub fn to_string(&self) -> (r: String)
        ensures
            r@ == spec_attribute_name(*self),
    {
        match self {
            AudioAttributes::SampleRate => String::from_str("SampleRate"),
            AudioAttributes::Volume => String::from_str("Volume"),
            AudioAttributes::Pan => String::from_str("Pan"),
            AudioAttributes::FXPitch => String::from_str("FXPitch"),
            AudioAttributes::FXTempo => String::from_str("FXTempo"),
            AudioAttributes::AudioFX => String::from_str("AudioFX"),
            AudioAttributes::AudioSpatialization => String::from_str("AudioSpatialization"),
            AudioAttributes::Unknown => String::from_str("Unknown"),
        }
    }
}

/// Parsing an attribute's name gives the attribute back, for every
/// attribute that has a name on the parsing path; the toggles and the
/// unknown marker parse to `Unknown`.
pub proof fn lemma_attribute_name_round_trip(attribute: AudioAttributes)
    ensures
        attribute == AudioAttributes::SampleRate || attribute == AudioAttributes::Volume
            || attribute == AudioAttributes::Pan || attribute == AudioAttributes::FXPitch
            || attribute == AudioAttributes::FXTempo ==> spec_attribute_from(
            spec_attribute_name(attribute),
        ) == attribute,
{
    reveal_strlit("SampleRate");
    reveal_strlit("Volume");
    reveal_strlit("Pan");
    reveal_strlit("FXPitch");
    reveal_strlit("FXTempo");
    assert("SampleRate"@.len() == 10);
    assert("Volume"@.len() == 6);
    assert("Pan"@.len() == 3);
    assert("FXPitch"@.len() == 7);
    assert("FXTempo"@.len() == 7);
    assert("FXPitch"@[2] == 'P');
    assert("FXTempo"@[2] == 'T');
}

#[derive(Debug, Clone)]
pub enum AudioPropertyError {
    UnsupportedAttribute(&'static str),
    AudioFXError(crate::fx::AudioFXError),
    SpatializationListenerError(crate::spatial::AudioSpatializationListenerError),
    AudioChannelError(crate::channel::AudioChannelError),
    AudioSpatializationListenerError(crate::spatial::AudioSpatializationListenerError),
    AudioSpatializationError(crate::spatial::AudioSpatializationError),
}

} // verus!
