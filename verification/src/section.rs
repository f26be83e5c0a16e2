//! The sections of a beatmap file and the header lines that open them.

use vstd::prelude::*;
use crate::text::{chars_of, is_text};

verus! {

/// The section that the line being read belongs to.
#[derive(Debug, Clone, Copy, PartialEq, Eq, Structural)]
pub enum CurrentSection {
    /// Before the first header: the line that declares the format version.
    Default,
    General,
    Editor,
    Metadata,
    Difficulty,
    Events,
    TimingPoints,
    Colours,
    HitObjects,
}

/// The section that a header line opens; `None` for a line that is no
/// header. A header is matched as a whole line, letter for letter.
pub open spec fn section_of_header(line: Seq<char>) -> Option<CurrentSection> {
    if line == "[General]"@ {
        Some(CurrentSection::General)
    } else if line == "[Editor]"@ {
        Some(CurrentSection::Editor)
    } else if line == "[Metadata]"@ {
        Some(CurrentSection::Metadata)
    } else if line == "[Difficulty]"@ {
        Some(CurrentSection::Difficulty)
    } else if line == "[Events]"@ {
        Some(CurrentSection::Events)
    } else if line == "[TimingPoints]"@ {
        Some(CurrentSection::TimingPoints)
    } else if line == "[Colours]"@ {
        Some(CurrentSection::Colours)
    } else if line == "[HitObjects]"@ {
        Some(CurrentSection::HitObjects)
    } else {
        None
    }
}

impl CurrentSection {
    /// The section that `line` opens, if it is a header.
    pub fn from_header(line: &str) -> (section: Option<CurrentSection>)
        ensures
            section == section_of_header(line@),
    {
        let chars = chars_of(line);
        let line = chars.as_slice();
        if is_text(line, "[General]") {
            Some(CurrentSection::General)
        } else if is_text(line, "[Editor]") {
            Some(CurrentSection::Editor)
        } else if is_text(line, "[Metadata]") {
            Some(CurrentSection::Metadata)
        } else if is_text(line, "[Difficulty]") {
            Some(CurrentSection::Difficulty)
        } else if is_text(line, "[Events]") {
            Some(CurrentSection::Events)
        } else if is_text(line, "[TimingPoints]") {
            Some(CurrentSection::TimingPoints)
        } else if is_text(line, "[Colours]") {
            Some(CurrentSection::Colours)
        } else if is_text(line, "[HitObjects]") {
            Some(CurrentSection::HitObjects)
        } else {
            None
        }
    }

    /// Whether lines of this section are `key: value` pairs.
    pub open spec fn is_key_value(self) -> bool {
        self == CurrentSection::General || self == CurrentSection::Editor || self
            == CurrentSection::Metadata || self == CurrentSection::Difficulty
    }
}

} // verus!
