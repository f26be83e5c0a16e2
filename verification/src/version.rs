//! The line that declares the version of the file format.

use vstd::prelude::*;
use crate::text::{chars_of, copy_range, is_text, split, split_chars, string_of};

verus! {

/// Why a beatmap file is refused as a whole.
#[derive(Debug, Clone, Copy, PartialEq, Eq, Structural)]
pub enum ParseError {
    /// The file declares no format version, or the line that should declare
    /// it has fewer than four words.
    MissingVersion,
    /// The fourth word of the version line does not begin with `v`.
    InvalidVersionFormat,
    /// The file declares a format version other than 14.
    UnsupportedVersion,
}

impl ParseError {
    /// The reason in words.
    pub fn message(&self) -> (text: String)
        ensures
            text@ == match *self {
                ParseError::MissingVersion => "Missing version field"@,
                ParseError::InvalidVersionFormat => "Version formatting is invalid"@,
                ParseError::UnsupportedVersion => "Only handling v14 beatmaps for now"@,
            },
    {
        match self {
            ParseError::MissingVersion => "Missing version field".to_owned(),
            ParseError::InvalidVersionFormat => "Version formatting is invalid".to_owned(),
            ParseError::UnsupportedVersion => "Only handling v14 beatmaps for now".to_owned(),
        }
    }
}

/// The one format version that is read.
pub open spec fn supported_version() -> Seq<char> {
    "14"@
}

/// The format version that a version line declares. The line is cut at
/// every single space; its fourth word must be there, begin with `v`, and
/// spell the supported version after that letter.
pub open spec fn version_of(line: Seq<char>) -> Result<Seq<char>, ParseError> {
    let words = split(line, ' ');
    if words.len() < 4 {
        Err(ParseError::MissingVersion)
    } else if words[3].len() == 0 || words[3][0] != 'v' {
        Err(ParseError::InvalidVersionFormat)
    } else if words[3].skip(1) != supported_version() {
        Err(ParseError::UnsupportedVersion)
    } else {
        Ok(words[3].skip(1))
    }
}

/// Reads the format version that `line` declares.
pub fn read_version(line: &str) -> (version: Result<String, ParseError>)
    ensures
        match version {
            Ok(v) => version_of(line@) == Ok::<Seq<char>, ParseError>(v@),
            Err(e) => version_of(line@) == Err::<Seq<char>, ParseError>(e),
        },
{
    let chars = chars_of(line);
    let words = split_chars(chars.as_slice(), ' ');
    if words.len() < 4 {
        return Err(ParseError::MissingVersion);
    }
    let word = words[3].as_slice();
    assert(word@ == split(line@, ' ')[3]);
    if word.len() == 0 || word[0] != 'v' {
        return Err(ParseError::InvalidVersionFormat);
    }
    let number = copy_range(word, 1, word.len());
    assert(number@ =~= word@.skip(1));
    if !is_text(number.as_slice(), "14") {
        return Err(ParseError::UnsupportedVersion);
    }
    Ok(string_of(number.as_slice()))
}

} // verus!
