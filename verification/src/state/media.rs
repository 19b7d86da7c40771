//! The recording settings' media types: output resolution, frame rate and
//! audio source, with the names the settings file uses for them.

use vstd::prelude::*;

use crate::json::{spec_as_str, spec_as_u32, as_u32, JsonValue, JsonNumber};
use crate::text::str_eq;

verus! {

/// A standard output resolution.
#[allow(non_camel_case_types)]
#[derive(Clone, Copy, Debug, PartialEq, Eq, Structural)]
pub enum StdResolution {
    _480p,
    _720p,
    _1080p,
    _1440p,
    _2160p,
    _4320p,
}

/// The name of a resolution in the settings file.
pub open spec fn resolution_name(r: StdResolution) -> Seq<char> {
    match r {
        StdResolution::_480p => "480p"@,
        StdResolution::_720p => "720p"@,
        StdResolution::_1080p => "1080p"@,
        StdResolution::_1440p => "1440p"@,
        StdResolution::_2160p => "2160p"@,
        StdResolution::_4320p => "4320p"@,
    }
}

/// The resolution named `s`, if any.
pub open spec fn resolution_named(s: Seq<char>) -> Option<StdResolution> {
    if s == "480p"@ {
        Some(StdResolution::_480p)
    } else if s == "720p"@ {
        Some(StdResolution::_720p)
    } else if s == "1080p"@ {
        Some(StdResolution::_1080p)
    } else if s == "1440p"@ {
        Some(StdResolution::_1440p)
    } else if s == "2160p"@ {
        Some(StdResolution::_2160p)
    } else if s == "4320p"@ {
        Some(StdResolution::_4320p)
    } else {
        None
    }
}

/// Every resolution is found again by its name.
pub proof fn lemma_resolution_names(r: StdResolution)
    ensures
        resolution_named(resolution_name(r)) == Some(r),
{
    reveal_strlit("480p");
    reveal_strlit("720p");
    reveal_strlit("1080p");
    reveal_strlit("1440p");
    reveal_strlit("2160p");
    reveal_strlit("4320p");
    assert("480p"@[0] == '4' && "480p"@.len() == 4);
    assert("720p"@[0] == '7');
    assert("1080p"@[0] == '1' && "1080p"@[1] == '0');
    assert("1440p"@[0] == '1' && "1440p"@[1] == '4');
    assert("2160p"@[0] == '2');
    assert("4320p"@[0] == '4' && "4320p"@.len() == 5);
}

impl StdResolution {
    /// The resolution named `name` ("480p", "720p", "1080p", "1440p", "2160p", "4320p").
    pub fn from_name(name: &str) -> (r: Option<StdResolution>)
        ensures
            r == resolution_named(name@),
    {
        if str_eq(name, "480p") {
            Some(StdResolution::_480p)
        } else if str_eq(name, "720p") {
            Some(StdResolution::_720p)
        } else if str_eq(name, "1080p") {
            Some(StdResolution::_1080p)
        } else if str_eq(name, "1440p") {
            Some(StdResolution::_1440p)
        } else if str_eq(name, "2160p") {
            Some(StdResolution::_2160p)
        } else if str_eq(name, "4320p") {
            Some(StdResolution::_4320p)
        } else {
            None
        }
    }

    /// The resolution's name.
    pub fn name(&self) -> (r: &'static str)
        ensures
            r@ == resolution_name(*self),
    {
        match self {
            StdResolution::_480p => "480p",
            StdResolution::_720p => "720p",
            StdResolution::_1080p => "1080p",
            StdResolution::_1440p => "1440p",
            StdResolution::_2160p => "2160p",
            StdResolution::_4320p => "4320p",
        }
    }

    /// The resolution named `name`, and 1080p for any other name (how the
    /// recorder process reads its configured resolution).
    pub fn from_name_or_1080p(name: &str) -> (r: StdResolution)
        ensures
            r == (match resolution_named(name@) {
                Some(x) => x,
                None => StdResolution::_1080p,
            }),
    {
        match StdResolution::from_name(name) {
            Some(x) => x,
            None => StdResolution::_1080p,
        }
    }
}

/// A frame rate as the fraction `num / den` frames per second.
#[derive(Clone, Copy, Debug, PartialEq, Eq, Structural)]
pub struct Framerate {
    pub num: u32,
    pub den: u32,
}

impl Framerate {
    pub fn new(num: u32, den: u32) -> (r: Framerate)
        ensures
            r == (Framerate { num, den }),
    {
        Framerate { num, den }
    }
}

/// Which sound is recorded.
#[allow(non_camel_case_types, clippy::upper_case_acronyms)]
#[derive(Clone, Copy, Debug, PartialEq, Eq, Structural)]
pub enum AudioSource {
    NONE,
    APPLICATION,
    SYSTEM,
    ALL,
}

/// The name of an audio source in the settings file.
pub open spec fn audio_source_name(a: AudioSource) -> Seq<char> {
    match a {
        AudioSource::NONE => "NONE"@,
        AudioSource::APPLICATION => "APPLICATION"@,
        AudioSource::SYSTEM => "SYSTEM"@,
        AudioSource::ALL => "ALL"@,
    }
}

/// The audio source named `s`, if any.
pub open spec fn audio_source_named(s: Seq<char>) -> Option<AudioSource> {
    if s == "NONE"@ {
        Some(AudioSource::NONE)
    } else if s == "APPLICATION"@ {
        Some(AudioSource::APPLICATION)
    } else if s == "SYSTEM"@ {
        Some(AudioSource::SYSTEM)
    } else if s == "ALL"@ {
        Some(AudioSource::ALL)
    } else {
        None
    }
}

/// Every audio source is found again by its name.
pub proof fn lemma_audio_source_names(a: AudioSource)
    ensures
        audio_source_named(audio_source_name(a)) == Some(a),
{
    reveal_strlit("NONE");
    reveal_strlit("APPLICATION");
    reveal_strlit("SYSTEM");
    reveal_strlit("ALL");
    assert("NONE"@[0] == 'N');
    assert("APPLICATION"@[0] == 'A' && "APPLICATION"@[1] == 'P');
    assert("SYSTEM"@[0] == 'S');
    assert("ALL"@[0] == 'A' && "ALL"@[1] == 'L');
}

impl AudioSource {
    pub fn from_name(name: &str) -> (r: Option<AudioSource>)
        ensures
            r == audio_source_named(name@),
    {
        if str_eq(name, "NONE") {
            Some(AudioSource::NONE)
        } else if str_eq(name, "APPLICATION") {
            Some(AudioSource::APPLICATION)
        } else if str_eq(name, "SYSTEM") {
            Some(AudioSource::SYSTEM)
        } else if str_eq(name, "ALL") {
            Some(AudioSource::ALL)
        } else {
            None
        }
    }

    pub fn name(&self) -> (r: &'static str)
        ensures
            r@ == audio_source_name(*self),
    {
        match self {
            AudioSource::NONE => "NONE",
            AudioSource::APPLICATION => "APPLICATION",
            AudioSource::SYSTEM => "SYSTEM",
            AudioSource::ALL => "ALL",
        }
    }
}

/// A resolution, if the value is a string naming one.
pub open spec fn spec_as_resolution(v: JsonValue) -> Option<StdResolution> {
    match spec_as_str(v) {
        Some(s) => resolution_named(s),
        None => None,
    }
}

/// An audio source, if the value is a string naming one.
pub open spec fn spec_as_audio_source(v: JsonValue) -> Option<AudioSource> {
    match spec_as_str(v) {
        Some(s) => audio_source_named(s),
        None => None,
    }
}

/// A frame rate, if the value is an array of exactly two positive `u32`
/// integers.
pub open spec fn spec_as_framerate(v: JsonValue) -> Option<Framerate> {
    match v {
        JsonValue::Array(xs) => if xs@.len() == 2 && spec_as_u32(xs@[0]) is Some && spec_as_u32(xs@[1]) is Some
            && spec_as_u32(xs@[0])->0 > 0 && spec_as_u32(xs@[1])->0 > 0 {
            Some(Framerate { num: spec_as_u32(xs@[0])->0, den: spec_as_u32(xs@[1])->0 })
        } else {
            None
        },
        _ => None,
    }
}

pub fn as_resolution(v: &JsonValue) -> (r: Option<StdResolution>)
    ensures
        r == spec_as_resolution(*v),
{
    match v {
        JsonValue::Str(s) => StdResolution::from_name(s.as_str()),
        _ => None,
    }
}

pub fn as_audio_source(v: &JsonValue) -> (r: Option<AudioSource>)
    ensures
        r == spec_as_audio_source(*v),
{
    match v {
        JsonValue::Str(s) => AudioSource::from_name(s.as_str()),
        _ => None,
    }
}

pub fn as_framerate(v: &JsonValue) -> (r: Option<Framerate>)
    ensures
        r == spec_as_framerate(*v),
{
    match v {
        JsonValue::Array(xs) => {
            if xs.len() == 2 {
                match (as_u32(&xs[0]), as_u32(&xs[1])) {
                    (Some(num), Some(den)) => if num > 0 && den > 0 {
                        Some(Framerate { num, den })
                    } else {
                        None
                    },
                    _ => None,
                }
            } else {
                None
            }
        },
        _ => None,
    }
}

/// The JSON form of a frame rate: `[num, den]`.
pub fn framerate_value(f: Framerate) -> (r: JsonValue)
    requires
        f.num > 0,
        f.den > 0,
    ensures
        spec_as_framerate(r) == Some(f),
{
    let mut xs: Vec<JsonValue> = Vec::new();
    xs.push(JsonValue::Number(JsonNumber::PosInt(f.num as u64)));
    xs.push(JsonValue::Number(JsonNumber::PosInt(f.den as u64)));
    JsonValue::Array(xs)
}

} // verus!
