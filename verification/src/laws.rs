//! What holds of the reader on every file.

use vstd::prelude::*;
use crate::beatmap::{EventsView, OsuBeatmap, OsuBeatmapView, TimingPointView};
use crate::key_value::key_of;
use crate::parser::{
    outcome_view, parse_beatmap, parse_spec, read_spec, ParserView, WarningView,
};
use crate::rows::{event_of, hit_object_of, timing_point_of, EventLineView};
use crate::section::{section_of_header, CurrentSection};
use crate::text::content_lines;
use crate::version::{supported_version, version_of, ParseError};

verus! {

/// Whether no line of `lines` is a section header.
pub open spec fn no_header(lines: Seq<Seq<char>>) -> bool {
    forall|i: int| 0 <= i < lines.len() ==> section_of_header(#[trigger] lines[i]) is None
}

/// Whether every line of `lines` is a section header.
pub open spec fn only_headers(lines: Seq<Seq<char>>) -> bool {
    forall|i: int| 0 <= i < lines.len() ==> section_of_header(#[trigger] lines[i]) is Some
}

/// Whether two beatmaps agree on every part but the one that lines of the
/// given section set. No line sets a part from the colours section.
pub open spec fn same_outside(
    section: CurrentSection,
    before: OsuBeatmapView,
    after: OsuBeatmapView,
) -> bool {
    &&& section != CurrentSection::Default ==> after.version == before.version
    &&& section != CurrentSection::General ==> after.general == before.general
    &&& section != CurrentSection::Editor ==> after.editor == before.editor
    &&& section != CurrentSection::Metadata ==> after.metadata == before.metadata
    &&& section != CurrentSection::Difficulty ==> after.difficulty == before.difficulty
    &&& section != CurrentSection::Events ==> after.events == before.events
    &&& section != CurrentSection::TimingPoints ==> after.timing_points == before.timing_points
    &&& section != CurrentSection::HitObjects ==> after.hit_objects == before.hit_objects
}

/// A header line changes no part of the beatmap, and any other line changes
/// at most the part that belongs to the section it stands in. Only a line of
/// the preamble can be refused.
pub proof fn law_line_changes_its_section_only(st: ParserView, line: Seq<char>)
    ensures
        match st.step(line) {
            Ok(next) => if section_of_header(line) is Some {
                next.beatmap == st.beatmap
            } else {
                next.section == st.section && same_outside(st.section, st.beatmap, next.beatmap)
            },
            Err(_) => section_of_header(line) is None && st.section == CurrentSection::Default,
        },
{
}

/// The lines between two headers change at most the part of the beatmap that
/// belongs to their section: every field that no line of the section names
/// stays as it was, and so at its zero value where it was never set.
pub proof fn law_block_changes_its_section_only(st: ParserView, lines: Seq<Seq<char>>)
    requires
        st.section != CurrentSection::Default,
        no_header(lines),
    ensures
        st.run(lines) is Ok,
        st.run(lines)->Ok_0.section == st.section,
        same_outside(st.section, st.beatmap, st.run(lines)->Ok_0.beatmap),
    decreases lines.len(),
{
    if lines.len() > 0 {
        lemma_no_header_tail(lines);
        law_line_changes_its_section_only(st, lines.first());
        let next = st.step(lines.first())->Ok_0;
        law_block_changes_its_section_only(next, lines.drop_first());
    }
}

/// Once the preamble is left no line is refused, the reader never returns to
/// the preamble, and the declared version stays as it is.
pub proof fn lemma_run_outside_preamble(st: ParserView, lines: Seq<Seq<char>>)
    requires
        st.section != CurrentSection::Default,
    ensures
        st.run(lines) is Ok,
        st.run(lines)->Ok_0.section != CurrentSection::Default,
        st.run(lines)->Ok_0.beatmap.version == st.beatmap.version,
    decreases lines.len(),
{
    if lines.len() > 0 {
        let next = st.step(lines.first())->Ok_0;
        lemma_run_outside_preamble(next, lines.drop_first());
    }
}

/// Header lines change the section and nothing else.
pub proof fn lemma_run_headers(st: ParserView, lines: Seq<Seq<char>>)
    requires
        only_headers(lines),
    ensures
        st.run(lines) is Ok,
        st.run(lines)->Ok_0.beatmap == st.beatmap,
        st.run(lines)->Ok_0.warnings == st.warnings,
        st.run(lines)->Ok_0.background_seen == st.background_seen,
    decreases lines.len(),
{
    if lines.len() > 0 {
        assert(section_of_header(lines[0]) is Some);
        let next = st.step(lines.first())->Ok_0;
        assert forall|i: int| 0 <= i < lines.drop_first().len() implies section_of_header(
            #[trigger] lines.drop_first()[i],
        ) is Some by {
            assert(lines.drop_first()[i] == lines[i + 1]);
        }
        lemma_run_headers(next, lines.drop_first());
    }
}

/// A file that declares format version 14 and sets nothing gives the beatmap
/// with every field at its zero value but the version: a version line
/// followed by section headers alone, in any number and order.
pub proof fn law_minimal_file(text: Seq<char>, first: Seq<char>, headers: Seq<Seq<char>>)
    requires
        content_lines(text) == seq![first] + headers,
        section_of_header(first) is None,
        version_of(first) is Ok,
        only_headers(headers),
    ensures
        parse_spec(text) == Ok::<OsuBeatmapView, ParseError>(
            OsuBeatmapView { version: supported_version(), ..OsuBeatmapView::empty() },
        ),
        read_spec(text)->Ok_0.warnings.len() == 0,
{
    let lines = content_lines(text);
    let start = ParserView::initial();
    assert(lines.first() == first);
    assert(lines.drop_first() =~= headers);
    let next = start.step(first)->Ok_0;
    lemma_run_headers(next, headers);
}

/// A file is read only if it declares format version 14 on its first line
/// that is not empty, and the beatmap then says so. A first line that
/// declares another version, or is no well-formed version line, makes the
/// file fail with that line's error, and a file without such a line fails
/// for want of a version; no beatmap comes out then.
pub proof fn law_version_gate(text: Seq<char>)
    ensures
        ({
            let lines = content_lines(text);
            let declared = lines.len() > 0 && section_of_header(lines[0]) is None;
            &&& parse_spec(text) is Ok ==> declared && version_of(lines[0]) is Ok
            &&& parse_spec(text) is Ok ==> parse_spec(text)->Ok_0.version == supported_version()
            &&& declared && version_of(lines[0]) is Err ==> parse_spec(text) == Err::<
                OsuBeatmapView,
                ParseError,
            >(version_of(lines[0])->Err_0)
            &&& !declared ==> parse_spec(text) == Err::<OsuBeatmapView, ParseError>(
                ParseError::MissingVersion,
            )
        }),
{
    let lines = content_lines(text);
    let start = ParserView::initial();
    reveal_strlit("14");
    assert(start.beatmap.version.len() == 0);
    assert(supported_version().len() == 2);
    if lines.len() > 0 {
        if section_of_header(lines[0]) is Some {
            let next = start.step(lines.first())->Ok_0;
            lemma_run_outside_preamble(next, lines.drop_first());
        }
    }
}

/// The timing points that a block of rows holds: those of its rows that have
/// exactly eight fields, in the order of the rows.
pub open spec fn timing_points_of(rows: Seq<Seq<char>>) -> Seq<TimingPointView>
    decreases rows.len(),
{
    if rows.len() == 0 {
        Seq::empty()
    } else {
        match timing_point_of(rows.first()) {
            Some(point) => seq![point] + timing_points_of(rows.drop_first()),
            None => timing_points_of(rows.drop_first()),
        }
    }
}

/// The tail of a block without headers has no header either.
pub proof fn lemma_no_header_tail(lines: Seq<Seq<char>>)
    requires
        no_header(lines),
        lines.len() > 0,
    ensures
        no_header(lines.drop_first()),
        section_of_header(lines.first()) is None,
{
    assert(section_of_header(lines[0]) is None);
    assert forall|i: int| 0 <= i < lines.drop_first().len() implies section_of_header(
        #[trigger] lines.drop_first()[i],
    ) is None by {
        assert(lines.drop_first()[i] == lines[i + 1]);
    }
}

/// In a block of timing point rows, the rows with exactly eight fields are
/// appended to the timing points in file order; every other row is skipped,
/// and reading goes on after it. Nothing else of the beatmap changes.
pub proof fn law_timing_points_block(st: ParserView, rows: Seq<Seq<char>>)
    requires
        st.section == CurrentSection::TimingPoints,
        no_header(rows),
    ensures
        st.run(rows) is Ok,
        st.run(rows)->Ok_0.section == CurrentSection::TimingPoints,
        st.run(rows)->Ok_0.beatmap == (OsuBeatmapView {
            timing_points: st.beatmap.timing_points + timing_points_of(rows),
            ..st.beatmap
        }),
    decreases rows.len(),
{
    if rows.len() == 0 {
        assert(st.beatmap.timing_points + timing_points_of(rows) =~= st.beatmap.timing_points);
    } else {
        lemma_no_header_tail(rows);
        let next = st.step(rows.first())->Ok_0;
        law_timing_points_block(next, rows.drop_first());
        let rest = timing_points_of(rows.drop_first());
        match timing_point_of(rows.first()) {
            Some(point) => {
                assert(st.beatmap.timing_points.push(point) + rest =~= st.beatmap.timing_points
                    + (seq![point] + rest));
            },
            None => {},
        }
    }
}

/// The path that the first background event of a block names; `None` for a
/// block without a background event.
pub open spec fn first_background(lines: Seq<Seq<char>>) -> Option<Seq<char>>
    decreases lines.len(),
{
    if lines.len() == 0 {
        None
    } else {
        match event_of(lines.first()) {
            EventLineView::Background(path) => Some(path),
            _ => first_background(lines.drop_first()),
        }
    }
}

/// In a block of event lines only the first background event sets the
/// background path: later ones are ignored, and so is every one after a
/// background was taken before the block. Nothing else of the beatmap
/// changes.
pub proof fn law_first_background_wins(st: ParserView, lines: Seq<Seq<char>>)
    requires
        st.section == CurrentSection::Events,
        no_header(lines),
    ensures
        st.run(lines) is Ok,
        st.run(lines)->Ok_0.section == CurrentSection::Events,
        st.run(lines)->Ok_0.beatmap == (OsuBeatmapView {
            events: EventsView {
                bg_src: if !st.background_seen && first_background(lines) is Some {
                    first_background(lines)->Some_0
                } else {
                    st.beatmap.events.bg_src
                },
            },
            ..st.beatmap
        }),
        st.run(lines)->Ok_0.background_seen == (st.background_seen || first_background(
            lines,
        ) is Some),
    decreases lines.len(),
{
    if lines.len() > 0 {
        lemma_no_header_tail(lines);
        let next = st.step(lines.first())->Ok_0;
        law_first_background_wins(next, lines.drop_first());
    }
}

/// Whether `key` names a field of the given section.
pub open spec fn key_is_known(section: CurrentSection, key: Seq<char>) -> bool {
    match section {
        CurrentSection::General => {
            ||| key == "AudioFilename"@
            ||| key == "AudioLeadIn"@
            ||| key == "PreviewTime"@
            ||| key == "Countdown"@
            ||| key == "SampleSet"@
            ||| key == "StackLeniency"@
            ||| key == "Mode"@
            ||| key == "LetterboxInBreaks"@
            ||| key == "WidescreenStoryboard"@
        },
        CurrentSection::Editor => {
            ||| key == "Bookmarks"@
            ||| key == "DistanceSpacing"@
            ||| key == "BeatDivisor"@
            ||| key == "GridSize"@
            ||| key == "TimelineZoom"@
        },
        CurrentSection::Metadata => {
            ||| key == "Title"@
            ||| key == "TitleUnicode"@
            ||| key == "Artist"@
            ||| key == "ArtistUnicode"@
            ||| key == "Creator"@
            ||| key == "Version"@
            ||| key == "Source"@
            ||| key == "Tags"@
            ||| key == "BeatmapID"@
            ||| key == "BeatmapSetID"@
        },
        CurrentSection::Difficulty => {
            ||| key == "HPDrainRate"@
            ||| key == "CircleSize"@
            ||| key == "OverallDifficulty"@
            ||| key == "ApproachRate"@
            ||| key == "SliderMultiplier"@
            ||| key == "SliderTickRate"@
        },
        _ => false,
    }
}

/// In the four `key: value` sections a line whose key names no field of its
/// section changes no field and does not end the reading: it adds a warning
/// that holds the key, and nothing else.
pub proof fn law_unknown_key_changes_nothing(st: ParserView, line: Seq<char>)
    requires
        st.section.is_key_value(),
        section_of_header(line) is None,
        line.contains(':'),
        !key_is_known(st.section, key_of(line)),
    ensures
        st.step(line) == Ok::<ParserView, ParseError>(
            st.warn(WarningView::UnknownKey(key_of(line))),
        ),
        st.step(line)->Ok_0.beatmap == st.beatmap,
        st.step(line)->Ok_0.section == st.section,
{
}

/// A line whose key names a field of its section is never skipped: it is
/// read and adds no warning.
pub proof fn law_known_key_is_read(st: ParserView, line: Seq<char>)
    requires
        st.section.is_key_value(),
        section_of_header(line) is None,
        line.contains(':'),
        key_is_known(st.section, key_of(line)),
    ensures
        st.step(line) is Ok,
        st.step(line)->Ok_0.warnings == st.warnings,
{
}

/// The rows of a block of hit objects, each cut into its fields.
pub open spec fn hit_objects_of(rows: Seq<Seq<char>>) -> Seq<Seq<Seq<char>>> {
    Seq::new(rows.len(), |i: int| hit_object_of(rows[i]))
}

/// In a block of hit-object rows every row is appended, cut into its fields,
/// in file order. Nothing else of the beatmap changes.
pub proof fn law_hit_objects_block(st: ParserView, rows: Seq<Seq<char>>)
    requires
        st.section == CurrentSection::HitObjects,
        no_header(rows),
    ensures
        st.run(rows) is Ok,
        st.run(rows)->Ok_0.section == CurrentSection::HitObjects,
        st.run(rows)->Ok_0.beatmap == (OsuBeatmapView {
            hit_objects: st.beatmap.hit_objects + hit_objects_of(rows),
            ..st.beatmap
        }),
    decreases rows.len(),
{
    if rows.len() == 0 {
        assert(st.beatmap.hit_objects + hit_objects_of(rows) =~= st.beatmap.hit_objects);
    } else {
        lemma_no_header_tail(rows);
        let next = st.step(rows.first())->Ok_0;
        let rest = rows.drop_first();
        law_hit_objects_block(next, rest);
        assert(st.beatmap.hit_objects.push(hit_object_of(rows.first())) + hit_objects_of(rest)
            =~= st.beatmap.hit_objects + hit_objects_of(rows)) by {
            assert forall|i: int| 0 <= i < rest.len() implies hit_objects_of(rest)[i]
                == hit_objects_of(rows)[i + 1] by {
                assert(rest[i] == rows[i + 1]);
            }
        }
    }
}

/// Reading a file is reading its parts in turn: the lines `head` followed by
/// the lines `tail` leave the reader where `tail` leaves it when started
/// from where `head` left it, and a line refused in `head` ends the reading.
pub proof fn law_run_in_parts(st: ParserView, head: Seq<Seq<char>>, tail: Seq<Seq<char>>)
    ensures
        st.run(head + tail) == match st.run(head) {
            Ok(mid) => mid.run(tail),
            Err(e) => Err(e),
        },
    decreases head.len(),
{
    if head.len() == 0 {
        assert(head + tail =~= tail);
    } else {
        assert((head + tail).first() == head.first());
        assert((head + tail).drop_first() =~= head.drop_first() + tail);
        match st.step(head.first()) {
            Ok(next) => {
                law_run_in_parts(next, head.drop_first(), tail);
            },
            Err(_) => {},
        }
    }
}

/// Reading the same text twice gives the same outcome, field by field:
/// whatever two calls of `parse_beatmap` on one text hand out has one model.
pub proof fn law_same_text_same_outcome(
    text: &str,
    first: Result<OsuBeatmap, ParseError>,
    second: Result<OsuBeatmap, ParseError>,
)
    requires
        call_ensures(parse_beatmap, (text,), first),
        call_ensures(parse_beatmap, (text,), second),
    ensures
        outcome_view(first) == outcome_view(second),
{
}

} // verus!
