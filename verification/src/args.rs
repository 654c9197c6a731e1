//! What a session is asked to produce.

use vstd::prelude::*;
use crate::util::Size;

verus! {

/// The options of one run.
#[derive(Debug, Clone)]
pub struct Args {
    /// Show the animation in a window rather than writing a file.
    pub preview: bool,
    /// The quality of the image or video that is written.
    pub quality: Quality,
    /// Where the output goes; a missing extension is filled in.
    pub output_file: String,
    /// Write one still image rather than a video.
    pub single_frame: bool,
    pub no_output: bool,
}

/// A preset of resolution and frame rate.
#[derive(Debug, Clone, Copy, PartialEq, Eq, Structural)]
pub enum Quality {
    FourK,
    Production,
    High,
    Medium,
    Low,
}

impl Quality {
    /// The preset's width in pixels.
    pub open spec fn width(self) -> u32 {
        match self {
            Quality::FourK => 3840,
            Quality::Production => 2560,
            Quality::High => 1920,
            Quality::Medium => 1280,
            Quality::Low => 854,
        }
    }

    /// The preset's height in pixels.
    pub open spec fn height(self) -> u32 {
        match self {
            Quality::FourK => 2160,
            Quality::Production => 1440,
            Quality::High => 1080,
            Quality::Medium => 720,
            Quality::Low => 480,
        }
    }

    /// The preset's frames per second.
    pub open spec fn spec_frame_rate(self) -> u32 {
        match self {
            Quality::FourK | Quality::Production | Quality::High => 60,
            Quality::Medium => 30,
            Quality::Low => 15,
        }
    }

    pub fn size(self) -> (size: Size)
        ensures
            size == Size::spec_new(self.width(), self.height()),
            size.wf(),
    {
        match self {
            Quality::FourK => Size::new(3840, 2160),
            Quality::Production => Size::new(2560, 1440),
            Quality::High => Size::new(1920, 1080),
            Quality::Medium => Size::new(1280, 720),
            Quality::Low => Size::new(854, 480),
        }
    }

    #[verifier::when_used_as_spec(spec_frame_rate)]
    pub fn frame_rate(self) -> (rate: u32)
        ensures
            rate == self.spec_frame_rate(),
    {
        match self {
            Quality::High | Quality::Production | Quality::FourK => 60,
            Quality::Medium => 30,
            Quality::Low => 15,
        }
    }

    /// The quality that a word names, whatever its case.
    pub fn from_str(s: &str) -> (result: Result<Self, String>)
        ensures
            match result {
                Ok(quality) => named(lowercase(s@)) == Some(quality),
                Err(message) => named(lowercase(s@)) is None && message@ == "Invalid quality: "@
                    + s@,
            },
    {
        let word = to_ascii_lowercase(s);
        if is_word(&word, "high") || is_word(&word, "hi") || is_word(&word, "h") {
            Ok(Self::High)
        } else if is_word(&word, "medium") || is_word(&word, "mid") || is_word(&word, "m") {
            Ok(Self::Medium)
        } else if is_word(&word, "low") || is_word(&word, "lo") || is_word(&word, "l") {
            Ok(Self::Low)
        } else if is_word(&word, "production") || is_word(&word, "prod") || is_word(&word, "p") {
            Ok(Self::Production)
        } else if is_word(&word, "fourk") || is_word(&word, "4k") || is_word(&word, "k") {
            Ok(Self::FourK)
        } else {
            Err(invalid_quality(s))
        }
    }

    /// The name of the quality.
    pub fn to_string(&self) -> (name: String)
        ensures
            name@ == match self {
                Quality::FourK => "FourK"@,
                Quality::Production => "Production"@,
                Quality::High => "High"@,
                Quality::Medium => "Medium"@,
                Quality::Low => "Low"@,
            },
    {
        match self {
            Quality::FourK => "FourK".to_owned(),
            Quality::Production => "Production".to_owned(),
            Quality::High => "High".to_owned(),
            Quality::Medium => "Medium".to_owned(),
            Quality::Low => "Low".to_owned(),
        }
    }
}

/// The lower case of an ASCII capital, and any other character itself.
pub open spec fn lowercase_char(c: char) -> char {
    if 'A' <= c <= 'Z' {
        ((c as u32) + 32) as char
    } else {
        c
    }
}

/// The word with its ASCII capitals in lower case.
pub open spec fn lowercase(s: Seq<char>) -> Seq<char> {
    s.map_values(|c: char| lowercase_char(c))
}

/// The quality that a word in lower case names.
pub open spec fn named(word: Seq<char>) -> Option<Quality> {
    if word == "high"@ || word == "hi"@ || word == "h"@ {
        Some(Quality::High)
    } else if word == "medium"@ || word == "mid"@ || word == "m"@ {
        Some(Quality::Medium)
    } else if word == "low"@ || word == "lo"@ || word == "l"@ {
        Some(Quality::Low)
    } else if word == "production"@ || word == "prod"@ || word == "p"@ {
        Some(Quality::Production)
    } else if word == "fourk"@ || word == "4k"@ || word == "k"@ {
        Some(Quality::FourK)
    } else {
        None
    }
}

/// `str::to_ascii_lowercase`: a copy of the string in which the ASCII
/// letters `A` to `Z` are `a` to `z`, and every other character is itself.
#[verifier::external_body]
fn to_ascii_lowercase(s: &str) -> (lower: String)
    ensures
        lower@ == lowercase(s@),
{
    s.to_ascii_lowercase()
}

/// The message for a word that names no quality, made by `format!`: the
/// word behind the fixed text.
#[verifier::external_body]
fn invalid_quality(s: &str) -> (message: String)
    ensures
        message@ == "Invalid quality: "@ + s@,
{
    format!("Invalid quality: {s}")
}

/// Whether `word` is `name`.
fn is_word(word: &String, name: &str) -> (same: bool)
    ensures
        same == (word@ == name@),
{
    let name = name.to_owned();
    *word == name
}

} // verus!
