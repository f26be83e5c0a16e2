//! Lines of the form `key: value`, and the fields that each key names in the
//! four sections made of such lines.

use vstd::prelude::*;
use crate::beatmap::{
    ints_view, Difficulty, DifficultyView, Editor, EditorView, General, GeneralView, Metadata,
    MetadataView,
};
use crate::number::{flag_of, int_or_zero, int_to_bool, parse_i32_or_zero};
use crate::text::{
    chars_of, copy_range, find, find_char, is_text, lemma_find, pieces_view, split, split_chars,
    split_text, string_of, trim, trim_chars,
};

verus! {

/// A line cut at its first colon, both sides without the whitespace around
/// them.
#[derive(Debug, Clone, PartialEq, Eq)]
pub struct KeyValue {
    pub key: String,
    pub value: String,
}

/// What stands before the first colon of a line, trimmed.
pub open spec fn key_of(line: Seq<char>) -> Seq<char> {
    trim(line.take(find(line, ':')))
}

/// What stands after the first colon of a line, trimmed.
pub open spec fn value_of(line: Seq<char>) -> Seq<char> {
    trim(line.skip(find(line, ':') + 1))
}

impl KeyValue {
    /// Cuts a line that holds a colon into its key and its value.
    pub fn new(line: &str) -> (pair: KeyValue)
        requires
            line@.contains(':'),
        ensures
            pair.key@ == key_of(line@),
            pair.value@ == value_of(line@),
    {
        let chars = chars_of(line);
        let at = find_char(chars.as_slice(), ':');
        proof {
            lemma_find(line@, ':');
        }
        let before = copy_range(chars.as_slice(), 0, at);
        let after = copy_range(chars.as_slice(), at + 1, chars.len());
        assert(before@ =~= line@.take(at as int));
        assert(after@ =~= line@.skip(at + 1));
        let key = trim_chars(before.as_slice());
        let value = trim_chars(after.as_slice());
        KeyValue { key: string_of(key.as_slice()), value: string_of(value.as_slice()) }
    }

    /// Cuts a line into its key and its value; `None` for a line without a
    /// colon.
    pub fn try_new(line: &str) -> (pair: Option<KeyValue>)
        ensures
            match pair {
                Some(pair) => line@.contains(':') && pair.key@ == key_of(line@) && pair.value@
                    == value_of(line@),
                None => !line@.contains(':'),
            },
    {
        let chars = chars_of(line);
        let at = find_char(chars.as_slice(), ':');
        proof {
            lemma_find(line@, ':');
        }
        if at < chars.len() {
            Some(KeyValue::new(line))
        } else {
            None
        }
    }
}

/// The integers that the pieces of a list spell, zero for a piece that
/// spells none.
pub open spec fn ints_of(pieces: Seq<Seq<char>>) -> Seq<int> {
    Seq::new(pieces.len(), |i: int| int_or_zero(pieces[i]))
}

/// The general settings after `key` is given `value`; `None` for a key that
/// names no general setting.
pub open spec fn general_assign(g: GeneralView, key: Seq<char>, value: Seq<char>) -> Option<
    GeneralView,
> {
    if key == "AudioFilename"@ {
        Some(GeneralView { audio: value, ..g })
    } else if key == "AudioLeadIn"@ {
        Some(GeneralView { audio_lead_in: int_or_zero(value), ..g })
    } else if key == "PreviewTime"@ {
        Some(GeneralView { preview_time: int_or_zero(value), ..g })
    } else if key == "Countdown"@ {
        Some(GeneralView { countdown: int_or_zero(value), ..g })
    } else if key == "SampleSet"@ {
        Some(GeneralView { sample_set: value, ..g })
    } else if key == "StackLeniency"@ {
        Some(GeneralView { stack_leniency: value, ..g })
    } else if key == "Mode"@ {
        Some(GeneralView { mode: int_or_zero(value), ..g })
    } else if key == "LetterboxInBreaks"@ {
        Some(GeneralView { letterbox_in_breaks: flag_of(int_or_zero(value)), ..g })
    } else if key == "WidescreenStoryboard"@ {
        Some(GeneralView { widescreen_storyboard: flag_of(int_or_zero(value)), ..g })
    } else {
        None
    }
}

impl General {
    /// Gives the setting that `key` names the value that `value` spells, and
    /// says whether `key` names one. An unknown key changes nothing.
    pub fn assign(&mut self, key: &str, value: &str) -> (known: bool)
        ensures
            match general_assign(old(self)@, key@, value@) {
                Some(after) => known && final(self)@ == after,
                None => !known && final(self)@ == old(self)@,
            },
    {
        let key_chars = chars_of(key);
        let value_chars = chars_of(value);
        let k = key_chars.as_slice();
        let v = value_chars.as_slice();
        if is_text(k, "AudioFilename") {
            self.audio = string_of(v);
        } else if is_text(k, "AudioLeadIn") {
            self.audio_lead_in = parse_i32_or_zero(v);
        } else if is_text(k, "PreviewTime") {
            self.preview_time = parse_i32_or_zero(v);
        } else if is_text(k, "Countdown") {
            self.countdown = parse_i32_or_zero(v);
        } else if is_text(k, "SampleSet") {
            self.sample_set = string_of(v);
        } else if is_text(k, "StackLeniency") {
            self.stack_leniency = string_of(v);
        } else if is_text(k, "Mode") {
            self.mode = parse_i32_or_zero(v);
        } else if is_text(k, "LetterboxInBreaks") {
            self.letterbox_in_breaks = int_to_bool(parse_i32_or_zero(v));
        } else if is_text(k, "WidescreenStoryboard") {
            self.widescreen_storyboard = int_to_bool(parse_i32_or_zero(v));
        } else {
            return false;
        }
        true
    }
}

/// Reads each piece of a list as an integer, an unreadable one as zero.
pub fn parse_ints(pieces: &Vec<Vec<char>>) -> (numbers: Vec<i32>)
    ensures
        ints_view(numbers@) == ints_of(pieces_view(pieces@)),
{
    let mut numbers: Vec<i32> = Vec::new();
    let mut i: usize = 0;
    while i < pieces.len()
        invariant
            i <= pieces.len(),
            numbers@.len() == i,
            forall|j: int| 0 <= j < i ==> numbers@[j] as int == int_or_zero(pieces@[j]@),
        decreases pieces.len() - i,
    {
        numbers.push(parse_i32_or_zero(pieces[i].as_slice()));
        i += 1;
    }
    assert(ints_view(numbers@) =~= ints_of(pieces_view(pieces@)));
    numbers
}

/// The editor settings after `key` is given `value`; `None` for a key that
/// names no editor setting. Bookmarks are a list separated by commas.
pub open spec fn editor_assign(e: EditorView, key: Seq<char>, value: Seq<char>) -> Option<
    EditorView,
> {
    if key == "Bookmarks"@ {
        Some(EditorView { bookmarks: ints_of(split(value, ',')), ..e })
    } else if key == "DistanceSpacing"@ {
        Some(EditorView { distance_spacing: value, ..e })
    } else if key == "BeatDivisor"@ {
        Some(EditorView { beat_divisor: int_or_zero(value), ..e })
    } else if key == "GridSize"@ {
        Some(EditorView { grid_size: int_or_zero(value), ..e })
    } else if key == "TimelineZoom"@ {
        Some(EditorView { timeline_zoom: value, ..e })
    } else {
        None
    }
}

impl Editor {
    /// Gives the setting that `key` names the value that `value` spells, and
    /// says whether `key` names one. An unknown key changes nothing.
    pub fn assign(&mut self, key: &str, value: &str) -> (known: bool)
        ensures
            match editor_assign(old(self)@, key@, value@) {
                Some(after) => known && final(self)@ == after,
                None => !known && final(self)@ == old(self)@,
            },
    {
        let key_chars = chars_of(key);
        let value_chars = chars_of(value);
        let k = key_chars.as_slice();
        let v = value_chars.as_slice();
        if is_text(k, "Bookmarks") {
            let pieces = split_chars(v, ',');
            self.bookmarks = parse_ints(&pieces);
        } else if is_text(k, "DistanceSpacing") {
            self.distance_spacing = string_of(v);
        } else if is_text(k, "BeatDivisor") {
            self.beat_divisor = parse_i32_or_zero(v);
        } else if is_text(k, "GridSize") {
            self.grid_size = parse_i32_or_zero(v);
        } else if is_text(k, "TimelineZoom") {
            self.timeline_zoom = string_of(v);
        } else {
            return false;
        }
        true
    }
}

/// The metadata after `key` is given `value`; `None` for a key that names no
/// metadata field. Tags are a list separated by single spaces.
pub open spec fn metadata_assign(m: MetadataView, key: Seq<char>, value: Seq<char>) -> Option<
    MetadataView,
> {
    if key == "Title"@ {
        Some(MetadataView { title: value, ..m })
    } else if key == "TitleUnicode"@ {
        Some(MetadataView { title_unicode: value, ..m })
    } else if key == "Artist"@ {
        Some(MetadataView { artist: value, ..m })
    } else if key == "ArtistUnicode"@ {
        Some(MetadataView { artist_unicode: value, ..m })
    } else if key == "Creator"@ {
        Some(MetadataView { creator: value, ..m })
    } else if key == "Version"@ {
        Some(MetadataView { version: value, ..m })
    } else if key == "Source"@ {
        Some(MetadataView { source: value, ..m })
    } else if key == "Tags"@ {
        Some(MetadataView { tags: split(value, ' '), ..m })
    } else if key == "BeatmapID"@ {
        Some(MetadataView { beatmap_id: int_or_zero(value), ..m })
    } else if key == "BeatmapSetID"@ {
        Some(MetadataView { beatmap_set_id: int_or_zero(value), ..m })
    } else {
        None
    }
}

impl Metadata {
    /// Gives the field that `key` names the value that `value` spells, and
    /// says whether `key` names one. An unknown key changes nothing.
    pub fn assign(&mut self, key: &str, value: &str) -> (known: bool)
        ensures
            match metadata_assign(old(self)@, key@, value@) {
                Some(after) => known && final(self)@ == after,
                None => !known && final(self)@ == old(self)@,
            },
    {
        let key_chars = chars_of(key);
        let value_chars = chars_of(value);
        let k = key_chars.as_slice();
        let v = value_chars.as_slice();
        if is_text(k, "Title") {
            self.title = string_of(v);
        } else if is_text(k, "TitleUnicode") {
            self.title_unicode = string_of(v);
        } else if is_text(k, "Artist") {
            self.artist = string_of(v);
        } else if is_text(k, "ArtistUnicode") {
            self.artist_unicode = string_of(v);
        } else if is_text(k, "Creator") {
            self.creator = string_of(v);
        } else if is_text(k, "Version") {
            self.version = string_of(v);
        } else if is_text(k, "Source") {
            self.source = string_of(v);
        } else if is_text(k, "Tags") {
            self.tags = split_text(v, ' ');
        } else if is_text(k, "BeatmapID") {
            self.beatmap_id = parse_i32_or_zero(v);
        } else if is_text(k, "BeatmapSetID") {
            self.beatmap_set_id = parse_i32_or_zero(v);
        } else {
            return false;
        }
        true
    }
}

/// The difficulty after `key` is given `value`; `None` for a key that names
/// no difficulty setting.
pub open spec fn difficulty_assign(d: DifficultyView, key: Seq<char>, value: Seq<char>) -> Option<
    DifficultyView,
> {
    if key == "HPDrainRate"@ {
        Some(DifficultyView { hp_drain_rate: value, ..d })
    } else if key == "CircleSize"@ {
        Some(DifficultyView { circle_size: value, ..d })
    } else if key == "OverallDifficulty"@ {
        Some(DifficultyView { overall_difficulty: value, ..d })
    } else if key == "ApproachRate"@ {
        Some(DifficultyView { approach_rate: value, ..d })
    } else if key == "SliderMultiplier"@ {
        Some(DifficultyView { slider_multiplier: value, ..d })
    } else if key == "SliderTickRate"@ {
        Some(DifficultyView { slider_tick_rate: value, ..d })
    } else {
        None
    }
}

impl Difficulty {
    /// Gives the setting that `key` names the value that `value` spells, and
    /// says whether `key` names one. An unknown key changes nothing.
    pub fn assign(&mut self, key: &str, value: &str) -> (known: bool)
        ensures
            match difficulty_assign(old(self)@, key@, value@) {
                Some(after) => known && final(self)@ == after,
                None => !known && final(self)@ == old(self)@,
            },
    {
        let key_chars = chars_of(key);
        let value_chars = chars_of(value);
        let k = key_chars.as_slice();
        let v = value_chars.as_slice();
        if is_text(k, "HPDrainRate") {
            self.hp_drain_rate = string_of(v);
        } else if is_text(k, "CircleSize") {
            self.circle_size = string_of(v);
        } else if is_text(k, "OverallDifficulty") {
            self.overall_difficulty = string_of(v);
        } else if is_text(k, "ApproachRate") {
            self.approach_rate = string_of(v);
        } else if is_text(k, "SliderMultiplier") {
            self.slider_multiplier = string_of(v);
        } else if is_text(k, "SliderTickRate") {
            self.slider_tick_rate = string_of(v);
        } else {
            return false;
        }
        true
    }
}

} // verus!
