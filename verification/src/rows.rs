//! Lines made of fields separated by commas: events, timing points and hit
//! objects.

use vstd::prelude::*;
use crate::beatmap::{TimingPoint, TimingPointView};
use crate::number::{flag_of, int_or_zero, int_to_bool, parse_i32_or_zero};
use crate::text::{
    chars_of, remove_char, split, split_chars, split_text, string_of, strings_view, without,
};

verus! {

/// What a line of the events section says.
#[derive(Debug, Clone, PartialEq, Eq)]
pub enum EventLine {
    /// An event other than a background: nothing is kept of it.
    Other,
    /// A background event that names the image at this path.
    Background(String),
    /// An empty line, or a background event with fewer than three fields.
    Malformed,
}

/// Model of [`EventLine`].
pub enum EventLineView {
    Other,
    Background(Seq<char>),
    Malformed,
}

impl View for EventLine {
    type V = EventLineView;

    open spec fn view(&self) -> EventLineView {
        match *self {
            EventLine::Other => EventLineView::Other,
            EventLine::Background(path) => EventLineView::Background(path@),
            EventLine::Malformed => EventLineView::Malformed,
        }
    }
}

/// What a line of the events section says. A line that begins with `0` is a
/// background event: its third field, without any double quote, is the path
/// of the image.
pub open spec fn event_of(line: Seq<char>) -> EventLineView {
    let fields = split(line, ',');
    if line.len() == 0 {
        EventLineView::Malformed
    } else if line[0] != '0' {
        EventLineView::Other
    } else if fields.len() < 3 {
        EventLineView::Malformed
    } else {
        EventLineView::Background(without(fields[2], '"'))
    }
}

/// Reads a line of the events section.
pub fn read_event(line: &str) -> (event: EventLine)
    ensures
        event@ == event_of(line@),
{
    let chars = chars_of(line);
    if chars.len() == 0 {
        return EventLine::Malformed;
    }
    if chars[0] != '0' {
        return EventLine::Other;
    }
    let fields = split_chars(chars.as_slice(), ',');
    if fields.len() < 3 {
        return EventLine::Malformed;
    }
    let path = remove_char(fields[2].as_slice(), '"');
    EventLine::Background(string_of(path.as_slice()))
}

/// The timing point that a row stands for: a row of exactly eight fields.
/// Integers that cannot be read are zero; the beat length and the effects
/// are kept as written.
pub open spec fn timing_point_of(line: Seq<char>) -> Option<TimingPointView> {
    let fields = split(line, ',');
    if fields.len() == 8 {
        Some(
            TimingPointView {
                time: int_or_zero(fields[0]),
                beat_length: fields[1],
                meter: int_or_zero(fields[2]),
                sample_set: int_or_zero(fields[3]),
                sample_index: int_or_zero(fields[4]),
                volume: int_or_zero(fields[5]),
                uninherited: flag_of(int_or_zero(fields[6])),
                effects: fields[7],
            },
        )
    } else {
        None
    }
}

impl TimingPoint {
    /// Reads a row of the timing points section; `None` for a row that has
    /// not exactly eight fields.
    pub fn from_row(line: &str) -> (point: Option<TimingPoint>)
        ensures
            match point {
                Some(point) => timing_point_of(line@) == Some(point@),
                None => timing_point_of(line@) is None,
            },
    {
        let chars = chars_of(line);
        let fields = split_chars(chars.as_slice(), ',');
        if fields.len() != 8 {
            return None;
        }
        Some(
            TimingPoint {
                time: parse_i32_or_zero(fields[0].as_slice()),
                beat_length: string_of(fields[1].as_slice()),
                meter: parse_i32_or_zero(fields[2].as_slice()),
                sample_set: parse_i32_or_zero(fields[3].as_slice()),
                sample_index: parse_i32_or_zero(fields[4].as_slice()),
                volume: parse_i32_or_zero(fields[5].as_slice()),
                uninherited: int_to_bool(parse_i32_or_zero(fields[6].as_slice())),
                effects: string_of(fields[7].as_slice()),
            },
        )
    }
}

/// The fields of a hit-object row, as written.
pub open spec fn hit_object_of(line: Seq<char>) -> Seq<Seq<char>> {
    split(line, ',')
}

/// Reads a row of the hit objects section into its fields.
pub fn read_hit_object(line: &str) -> (fields: Vec<String>)
    ensures
        strings_view(fields@) == hit_object_of(line@),
{
    let chars = chars_of(line);
    split_text(chars.as_slice(), ',')
}

} // verus!
