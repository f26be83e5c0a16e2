//! The reader itself: a state machine that takes a beatmap file line by
//! line.
//!
//! A header line changes the section. Every other line is read by the rules
//! of the section it stands in and folded into the beatmap. A file fails
//! only over its format version: where a line before the first header does
//! not declare the supported one, or where none is declared at all. A line
//! that cannot be read elsewhere is skipped and a warning is recorded.

use vstd::prelude::*;
use crate::beatmap::{
    rows_view, timing_points_view, EventsView, OsuBeatmap, OsuBeatmapView, TimingPoint,
};
use crate::key_value::{
    difficulty_assign, editor_assign, general_assign, key_of, metadata_assign, value_of, KeyValue,
};
use crate::rows::{
    event_of, hit_object_of, read_event, read_hit_object, timing_point_of, EventLine,
    EventLineView,
};
use crate::section::{section_of_header, CurrentSection};
use crate::text::{
    chars_of, content_lines, is_text, pieces_view, split_lines, string_of, strings_view,
};
use crate::version::{read_version, supported_version, version_of, ParseError};

verus! {

/// A line that was skipped, and why.
#[derive(Debug, Clone, PartialEq, Eq)]
pub enum Warning {
    /// A `key: value` line whose key names no field of its section; the key.
    UnknownKey(String),
    /// A timing point row that has not exactly eight fields; the row.
    InvalidTimingPoint(String),
    /// A line that lacks what its section needs: a `key: value` line without
    /// a colon, or a malformed event; the line.
    MalformedLine(String),
}

/// Model of [`Warning`].
pub enum WarningView {
    UnknownKey(Seq<char>),
    InvalidTimingPoint(Seq<char>),
    MalformedLine(Seq<char>),
}

impl View for Warning {
    type V = WarningView;

    open spec fn view(&self) -> WarningView {
        match *self {
            Warning::UnknownKey(key) => WarningView::UnknownKey(key@),
            Warning::InvalidTimingPoint(line) => WarningView::InvalidTimingPoint(line@),
            Warning::MalformedLine(line) => WarningView::MalformedLine(line@),
        }
    }
}

/// What a vector of warnings holds, as a sequence of their models.
pub open spec fn warnings_view(warnings: Seq<Warning>) -> Seq<WarningView> {
    Seq::new(warnings.len(), |i: int| warnings[i]@)
}

/// The state of the reader between two lines.
#[derive(Debug, Clone, PartialEq, Eq)]
pub struct Parser {
    /// The section that the next line belongs to.
    pub section: CurrentSection,
    /// Whether a background event has been taken.
    pub background_seen: bool,
    /// What the lines read so far have set.
    pub beatmap: OsuBeatmap,
    /// The lines skipped so far, in file order.
    pub warnings: Vec<Warning>,
}

/// Model of [`Parser`].
pub struct ParserView {
    pub section: CurrentSection,
    pub background_seen: bool,
    pub beatmap: OsuBeatmapView,
    pub warnings: Seq<WarningView>,
}

impl View for Parser {
    type V = ParserView;

    open spec fn view(&self) -> ParserView {
        ParserView {
            section: self.section,
            background_seen: self.background_seen,
            beatmap: self.beatmap@,
            warnings: warnings_view(self.warnings@),
        }
    }
}

impl ParserView {
    /// The state before the first line.
    pub open spec fn initial() -> ParserView {
        ParserView {
            section: CurrentSection::Default,
            background_seen: false,
            beatmap: OsuBeatmapView::empty(),
            warnings: Seq::empty(),
        }
    }

    /// This state with one more warning.
    pub open spec fn warn(self, warning: WarningView) -> ParserView {
        ParserView { warnings: self.warnings.push(warning), ..self }
    }

    /// This state after a line of the preamble: the line must declare the
    /// supported format version.
    pub open spec fn read_version_line(self, line: Seq<char>) -> Result<ParserView, ParseError> {
        match version_of(line) {
            Ok(version) => Ok(
                ParserView { beatmap: OsuBeatmapView { version, ..self.beatmap }, ..self },
            ),
            Err(e) => Err(e),
        }
    }

    /// This state after a line of a `key: value` section. A line without a
    /// colon and a line with an unknown key change no field.
    pub open spec fn read_key_value_line(self, line: Seq<char>) -> ParserView {
        let key = key_of(line);
        let value = value_of(line);
        let b = self.beatmap;
        let unknown = self.warn(WarningView::UnknownKey(key));
        if !line.contains(':') {
            self.warn(WarningView::MalformedLine(line))
        } else {
            match self.section {
                CurrentSection::General => match general_assign(b.general, key, value) {
                    Some(general) => ParserView {
                        beatmap: OsuBeatmapView { general, ..b },
                        ..self
                    },
                    None => unknown,
                },
                CurrentSection::Editor => match editor_assign(b.editor, key, value) {
                    Some(editor) => ParserView { beatmap: OsuBeatmapView { editor, ..b }, ..self },
                    None => unknown,
                },
                CurrentSection::Metadata => match metadata_assign(b.metadata, key, value) {
                    Some(metadata) => ParserView {
                        beatmap: OsuBeatmapView { metadata, ..b },
                        ..self
                    },
                    None => unknown,
                },
                CurrentSection::Difficulty => match difficulty_assign(b.difficulty, key, value) {
                    Some(difficulty) => ParserView {
                        beatmap: OsuBeatmapView { difficulty, ..b },
                        ..self
                    },
                    None => unknown,
                },
                _ => self,
            }
        }
    }

    /// This state after a line of the events section. The first background
    /// event sets the background; no later one changes it.
    pub open spec fn read_event_line(self, line: Seq<char>) -> ParserView {
        match event_of(line) {
            EventLineView::Other => self,
            EventLineView::Malformed => self.warn(WarningView::MalformedLine(line)),
            EventLineView::Background(path) => if self.background_seen {
                self
            } else {
                ParserView {
                    background_seen: true,
                    beatmap: OsuBeatmapView {
                        events: EventsView { bg_src: path },
                        ..self.beatmap
                    },
                    ..self
                }
            },
        }
    }

    /// This state after a row of the timing points section: a row of eight
    /// fields is appended, any other is skipped.
    pub open spec fn read_timing_point_line(self, line: Seq<char>) -> ParserView {
        match timing_point_of(line) {
            Some(point) => ParserView {
                beatmap: OsuBeatmapView {
                    timing_points: self.beatmap.timing_points.push(point),
                    ..self.beatmap
                },
                ..self
            },
            None => self.warn(WarningView::InvalidTimingPoint(line)),
        }
    }

    /// This state after a row of the hit objects section: the row is
    /// appended.
    pub open spec fn read_hit_object_line(self, line: Seq<char>) -> ParserView {
        ParserView {
            beatmap: OsuBeatmapView {
                hit_objects: self.beatmap.hit_objects.push(hit_object_of(line)),
                ..self.beatmap
            },
            ..self
        }
    }

    /// This state after one more line, or the reason for which the file is
    /// refused at that line.
    pub open spec fn step(self, line: Seq<char>) -> Result<ParserView, ParseError> {
        match section_of_header(line) {
            Some(section) => Ok(ParserView { section, ..self }),
            None => match self.section {
                CurrentSection::Default => self.read_version_line(line),
                CurrentSection::General => Ok(self.read_key_value_line(line)),
                CurrentSection::Editor => Ok(self.read_key_value_line(line)),
                CurrentSection::Metadata => Ok(self.read_key_value_line(line)),
                CurrentSection::Difficulty => Ok(self.read_key_value_line(line)),
                CurrentSection::Events => Ok(self.read_event_line(line)),
                CurrentSection::TimingPoints => Ok(self.read_timing_point_line(line)),
                CurrentSection::Colours => Ok(self),
                CurrentSection::HitObjects => Ok(self.read_hit_object_line(line)),
            },
        }
    }

    /// This state after the given lines, taken in order; the reason of the
    /// first line that is refused, if one is.
    pub open spec fn run(self, lines: Seq<Seq<char>>) -> Result<ParserView, ParseError>
        decreases lines.len(),
    {
        if lines.len() == 0 {
            Ok(self)
        } else {
            match self.step(lines.first()) {
                Ok(next) => next.run(lines.drop_first()),
                Err(e) => Err(e),
            }
        }
    }

    /// What is handed out when the lines are exhausted: the state itself
    /// where the supported format version was declared.
    pub open spec fn finish(self) -> Result<ParserView, ParseError> {
        if self.beatmap.version == supported_version() {
            Ok(self)
        } else {
            Err(ParseError::MissingVersion)
        }
    }
}

/// The reader's last state on a whole file, or the reason for which the file
/// is refused.
pub open spec fn read_spec(text: Seq<char>) -> Result<ParserView, ParseError> {
    match ParserView::initial().run(content_lines(text)) {
        Ok(last) => last.finish(),
        Err(e) => Err(e),
    }
}

/// The beatmap that a file holds, or the reason for which the file is
/// refused.
pub open spec fn parse_spec(text: Seq<char>) -> Result<OsuBeatmapView, ParseError> {
    match read_spec(text) {
        Ok(last) => Ok(last.beatmap),
        Err(e) => Err(e),
    }
}

impl Parser {
    /// A reader that has seen no line yet.
    pub fn new() -> (parser: Parser)
        ensures
            parser@ == ParserView::initial(),
    {
        let parser = Parser {
            section: CurrentSection::Default,
            background_seen: false,
            beatmap: OsuBeatmap::default(),
            warnings: Vec::new(),
        };
        assert(warnings_view(parser.warnings@) =~= Seq::<WarningView>::empty());
        parser
    }

    /// Records that a line was skipped.
    fn warn(&mut self, warning: Warning)
        ensures
            final(self)@ == old(self)@.warn(warning@),
    {
        self.warnings.push(warning);
        assert(warnings_view(self.warnings@) =~= warnings_view(old(self).warnings@).push(
            warning@,
        ));
    }

    /// Reads a line of one of the four `key: value` sections.
    fn feed_key_value(&mut self, line: &str)
        requires
            old(self).section.is_key_value(),
        ensures
            final(self)@ == old(self)@.read_key_value_line(line@),
    {
        match KeyValue::try_new(line) {
            None => {
                self.warn(Warning::MalformedLine(line.to_owned()));
            },
            Some(pair) => {
                let key = pair.key.as_str();
                let value = pair.value.as_str();
                let known = match self.section {
                    CurrentSection::General => self.beatmap.general.assign(key, value),
                    CurrentSection::Editor => self.beatmap.editor.assign(key, value),
                    CurrentSection::Metadata => self.beatmap.metadata.assign(key, value),
                    _ => self.beatmap.difficulty.assign(key, value),
                };
                if !known {
                    self.warn(Warning::UnknownKey(pair.key));
                }
            },
        }
    }

    /// Reads a line of the events section.
    fn feed_event(&mut self, line: &str)
        ensures
            final(self)@ == old(self)@.read_event_line(line@),
    {
        match read_event(line) {
            EventLine::Other => {},
            EventLine::Malformed => {
                self.warn(Warning::MalformedLine(line.to_owned()));
            },
            EventLine::Background(path) => {
                if !self.background_seen {
                    self.beatmap.events.bg_src = path;
                    self.background_seen = true;
                }
            },
        }
    }

    /// Reads a row of the timing points section.
    fn feed_timing_point(&mut self, line: &str)
        ensures
            final(self)@ == old(self)@.read_timing_point_line(line@),
    {
        match TimingPoint::from_row(line) {
            Some(point) => {
                self.beatmap.timing_points.push(point);
                assert(timing_points_view(self.beatmap.timing_points@) =~= timing_points_view(
                    old(self).beatmap.timing_points@,
                ).push(point@));
            },
            None => {
                self.warn(Warning::InvalidTimingPoint(line.to_owned()));
            },
        }
    }

    /// Reads a row of the hit objects section.
    fn feed_hit_object(&mut self, line: &str)
        ensures
            final(self)@ == old(self)@.read_hit_object_line(line@),
    {
        let row = read_hit_object(line);
        self.beatmap.hit_objects.push(row);
        assert(rows_view(self.beatmap.hit_objects@) =~= rows_view(
            old(self).beatmap.hit_objects@,
        ).push(strings_view(row@)));
    }

    /// Takes the next line of the file. A line that is refused leaves the
    /// reader as it was.
    pub fn feed(&mut self, line: &str) -> (fed: Result<(), ParseError>)
        ensures
            match old(self)@.step(line@) {
                Ok(after) => fed is Ok && final(self)@ == after,
                Err(e) => fed == Err::<(), ParseError>(e) && final(self)@ == old(self)@,
            },
    {
        match CurrentSection::from_header(line) {
            Some(section) => {
                self.section = section;
                return Ok(());
            },
            None => {},
        }
        match self.section {
            CurrentSection::Default => {
                match read_version(line) {
                    Ok(version) => {
                        self.beatmap.version = version;
                    },
                    Err(e) => {
                        return Err(e);
                    },
                }
            },
            CurrentSection::General => self.feed_key_value(line),
            CurrentSection::Editor => self.feed_key_value(line),
            CurrentSection::Metadata => self.feed_key_value(line),
            CurrentSection::Difficulty => self.feed_key_value(line),
            CurrentSection::Events => self.feed_event(line),
            CurrentSection::TimingPoints => self.feed_timing_point(line),
            CurrentSection::Colours => {},
            CurrentSection::HitObjects => self.feed_hit_object(line),
        }
        Ok(())
    }

    /// Ends the file: hands out the beatmap and the warnings where the
    /// supported format version was declared.
    pub fn finish(self) -> (read: Result<(OsuBeatmap, Vec<Warning>), ParseError>)
        ensures
            match self@.finish() {
                Ok(last) => read is Ok && read->Ok_0.0@ == last.beatmap && warnings_view(
                    read->Ok_0.1@,
                ) == last.warnings,
                Err(e) => read == Err::<(OsuBeatmap, Vec<Warning>), ParseError>(e),
            },
    {
        let version = chars_of(self.beatmap.version.as_str());
        if is_text(version.as_slice(), "14") {
            Ok((self.beatmap, self.warnings))
        } else {
            Err(ParseError::MissingVersion)
        }
    }
}

/// Reads a beatmap file given as its whole text. Hands out the beatmap
/// together with a warning for each line that was skipped, in file order.
pub fn parse_beatmap_with_warnings(text: &str) -> (read: Result<
    (OsuBeatmap, Vec<Warning>),
    ParseError,
>)
    ensures
        match read_spec(text@) {
            Ok(last) => read is Ok && read->Ok_0.0@ == last.beatmap && warnings_view(
                read->Ok_0.1@,
            ) == last.warnings,
            Err(e) => read == Err::<(OsuBeatmap, Vec<Warning>), ParseError>(e),
        },
{
    let chars = chars_of(text);
    let lines = split_lines(chars.as_slice());
    let ghost all = content_lines(text@);
    let mut parser = Parser::new();
    let mut i: usize = 0;
    proof {
        assert(all.skip(0) =~= all);
    }
    while i < lines.len()
        invariant
            i <= lines.len(),
            all == pieces_view(lines@),
            all == content_lines(text@),
            ParserView::initial().run(all) == parser@.run(all.skip(i as int)),
        decreases lines.len() - i,
    {
        let line = string_of(lines[i].as_slice());
        proof {
            assert(all.skip(i as int).first() == line@);
            assert(all.skip(i as int).drop_first() =~= all.skip(i + 1));
        }
        match parser.feed(line.as_str()) {
            Ok(()) => {},
            Err(e) => {
                return Err(e);
            },
        }
        i += 1;
    }
    parser.finish()
}

/// The model of what `parse_beatmap` hands out.
pub open spec fn outcome_view(read: Result<OsuBeatmap, ParseError>) -> Result<
    OsuBeatmapView,
    ParseError,
> {
    match read {
        Ok(beatmap) => Ok(beatmap@),
        Err(e) => Err(e),
    }
}

/// Reads a beatmap file given as its whole text: the beatmap that the file
/// holds, or the reason for which the file is refused.
pub fn parse_beatmap(text: &str) -> (read: Result<OsuBeatmap, ParseError>)
    ensures
        outcome_view(read) == parse_spec(text@),
{
    match parse_beatmap_with_warnings(text) {
        Ok((beatmap, _)) => Ok(beatmap),
        Err(e) => Err(e),
    }
}

} // verus!
