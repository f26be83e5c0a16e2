use osu_beatmap::{
    parse_beatmap, parse_beatmap_with_warnings, CurrentSection, OsuBeatmap, ParseError, Parser,
    TimingPoint, Warning,
};

fn lines(ls: &[&str]) -> String {
    ls.join("\n")
}

fn version_only() -> OsuBeatmap {
    let mut expected = OsuBeatmap::default();
    expected.version = "14".to_string();
    expected
}

#[test]
fn default_beatmap_has_every_field_at_zero() {
    let b = OsuBeatmap::default();
    assert_eq!(b.version, "");
    assert_eq!(b.general.audio, "");
    assert_eq!(b.general.audio_lead_in, 0);
    assert_eq!(b.general.preview_time, 0);
    assert_eq!(b.general.countdown, 0);
    assert_eq!(b.general.sample_set, "");
    assert_eq!(b.general.stack_leniency, "");
    assert_eq!(b.general.mode, 0);
    assert!(!b.general.letterbox_in_breaks);
    assert!(!b.general.widescreen_storyboard);
    assert!(b.editor.bookmarks.is_empty());
    assert_eq!(b.editor.distance_spacing, "");
    assert_eq!(b.editor.beat_divisor, 0);
    assert_eq!(b.editor.grid_size, 0);
    assert_eq!(b.editor.timeline_zoom, "");
    assert_eq!(b.metadata.title, "");
    assert!(b.metadata.tags.is_empty());
    assert_eq!(b.metadata.beatmap_id, 0);
    assert_eq!(b.metadata.beatmap_set_id, 0);
    assert_eq!(b.difficulty.hp_drain_rate, "");
    assert_eq!(b.events.bg_src, "");
    assert!(b.timing_points.is_empty());
    assert!(b.hit_objects.is_empty());
    assert_eq!(b.general.stack_leniency.parse::<f32>().unwrap_or(0.0), 0.0f32);
}

#[test]
fn minimal_file_gives_the_version_and_zero_elsewhere() {
    assert_eq!(parse_beatmap("osu file format v14"), Ok(version_only()));
    assert_eq!(parse_beatmap("osu file format v14\n"), Ok(version_only()));
    assert_eq!(parse_beatmap("\n\nosu file format v14\r\n\r\n"), Ok(version_only()));
}

#[test]
fn headers_alone_set_nothing() {
    let text = lines(&[
        "osu file format v14",
        "[General]",
        "[Editor]",
        "[Metadata]",
        "[Difficulty]",
        "[Events]",
        "[TimingPoints]",
        "[Colours]",
        "[HitObjects]",
        "[General]",
    ]);
    assert_eq!(parse_beatmap_with_warnings(&text), Ok((version_only(), vec![])));
}

#[test]
fn example_file_sets_audio_mode_and_one_timing_point() {
    let text = lines(&[
        "osu file format v14",
        "[General]",
        "AudioFilename: song.mp3",
        "Mode: 0",
        "[TimingPoints]",
        "0,500,4,2,1,60,1,0",
    ]);
    let b = parse_beatmap(&text).unwrap();
    assert_eq!(b.general.audio, "song.mp3");
    assert_eq!(b.general.mode, 0);
    assert_eq!(b.timing_points.len(), 1);
    assert_eq!(b.timing_points[0].time, 0);
    assert_eq!(b.timing_points[0].beat_length.parse::<f32>().unwrap_or(0.0), 500.0f32);
    assert!(b.timing_points[0].uninherited);

    let mut expected = version_only();
    expected.general.audio = "song.mp3".to_string();
    expected.timing_points.push(TimingPoint {
        time: 0,
        beat_length: "500".to_string(),
        meter: 4,
        sample_set: 2,
        sample_index: 1,
        volume: 60,
        uninherited: true,
        effects: "0".to_string(),
    });
    assert_eq!(b, expected);
}

#[test]
fn short_timing_row_is_skipped_and_reading_goes_on() {
    let text = lines(&[
        "osu file format v14",
        "[TimingPoints]",
        "0,500,4,2,1,60,1,0",
        "100,300,4",
        "200,-50,4,2,1,60,0,1",
        "[HitObjects]",
        "1,2,3",
    ]);
    let (b, warnings) = parse_beatmap_with_warnings(&text).unwrap();
    assert_eq!(b.timing_points.len(), 2);
    assert_eq!(b.timing_points[0].time, 0);
    assert_eq!(b.timing_points[1].time, 200);
    assert_eq!(b.hit_objects, vec![vec!["1", "2", "3"]]);
    assert_eq!(warnings, vec![Warning::InvalidTimingPoint("100,300,4".to_string())]);

    let without = lines(&[
        "osu file format v14",
        "[TimingPoints]",
        "0,500,4,2,1,60,1,0",
        "200,-50,4,2,1,60,0,1",
        "[HitObjects]",
        "1,2,3",
    ]);
    assert_eq!(parse_beatmap(&without), Ok(b));
}

#[test]
fn version_thirteen_fails_with_a_version_error() {
    assert_eq!(parse_beatmap("osu file format v13"), Err(ParseError::UnsupportedVersion));
    let text = lines(&["osu file format v13", "[General]", "Mode: 1"]);
    assert_eq!(parse_beatmap(&text), Err(ParseError::UnsupportedVersion));
    assert_eq!(parse_beatmap_with_warnings(&text), Err(ParseError::UnsupportedVersion));
}

#[test]
fn malformed_version_lines_fail() {
    assert_eq!(parse_beatmap("osu file format"), Err(ParseError::MissingVersion));
    assert_eq!(parse_beatmap("osu file format 14"), Err(ParseError::InvalidVersionFormat));
    assert_eq!(parse_beatmap("osu file format v15"), Err(ParseError::UnsupportedVersion));
    assert_eq!(parse_beatmap("hello"), Err(ParseError::MissingVersion));
}

#[test]
fn file_without_a_version_line_fails() {
    assert_eq!(parse_beatmap(""), Err(ParseError::MissingVersion));
    assert_eq!(parse_beatmap("\n\r\n\n"), Err(ParseError::MissingVersion));
    let text = lines(&["[General]", "Mode: 1"]);
    assert_eq!(parse_beatmap(&text), Err(ParseError::MissingVersion));
    let text = lines(&["[General]", "osu file format v14"]);
    assert_eq!(parse_beatmap(&text), Err(ParseError::MissingVersion));
}

#[test]
fn every_line_of_the_preamble_must_declare_the_version() {
    let text = lines(&["osu file format v14", "osu file format v14", "[General]"]);
    assert_eq!(parse_beatmap(&text), Ok(version_only()));
    let text = lines(&["osu file format v14", "stray line", "[General]"]);
    assert_eq!(parse_beatmap(&text), Err(ParseError::MissingVersion));
    let text = lines(&["osu file format v14", "osu file format v12"]);
    assert_eq!(parse_beatmap(&text), Err(ParseError::UnsupportedVersion));
}

#[test]
fn first_background_wins() {
    let text = lines(&[
        "osu file format v14",
        "[Events]",
        "//Background and Video events",
        "2,100,200",
        "0,0,\"first.jpg\",0,0",
        "0,0,\"second.jpg\",0,0",
        "[General]",
        "Mode: 1",
        "[Events]",
        "0,0,\"third.jpg\",0,0",
    ]);
    let (b, warnings) = parse_beatmap_with_warnings(&text).unwrap();
    assert_eq!(b.events.bg_src, "first.jpg");
    assert_eq!(b.general.mode, 1);
    assert!(warnings.is_empty());
}

#[test]
fn first_background_wins_even_with_an_empty_path() {
    let text = lines(&[
        "osu file format v14",
        "[Events]",
        "0,0,\"\",0,0",
        "0,0,\"later.jpg\",0,0",
    ]);
    assert_eq!(parse_beatmap(&text).unwrap().events.bg_src, "");
}

#[test]
fn malformed_event_is_reported_and_takes_no_background() {
    let text = lines(&[
        "osu file format v14",
        "[Events]",
        "0,0",
        "0,0,\"bg.png\"",
    ]);
    let (b, warnings) = parse_beatmap_with_warnings(&text).unwrap();
    assert_eq!(b.events.bg_src, "bg.png");
    assert_eq!(warnings, vec![Warning::MalformedLine("0,0".to_string())]);
}

#[test]
fn unknown_key_changes_nothing_and_is_reported() {
    let known = lines(&[
        "osu file format v14",
        "[General]",
        "AudioFilename: a.mp3",
        "[Metadata]",
        "Title: T",
        "[Difficulty]",
        "CircleSize: 4",
        "[Editor]",
        "GridSize: 8",
    ]);
    let with_unknown = lines(&[
        "osu file format v14",
        "[General]",
        "AudioFilename: a.mp3",
        "EpilepsyWarning: 1",
        "[Metadata]",
        "Title: T",
        "Genre : rock",
        "[Difficulty]",
        "CircleSize: 4",
        "Mode: 3",
        "[Editor]",
        "GridSize: 8",
        "Title: not here",
    ]);
    let (expected, no_warnings) = parse_beatmap_with_warnings(&known).unwrap();
    let (b, warnings) = parse_beatmap_with_warnings(&with_unknown).unwrap();
    assert!(no_warnings.is_empty());
    assert_eq!(b, expected);
    assert_eq!(b.general.mode, 0);
    assert_eq!(b.metadata.title, "T");
    assert_eq!(
        warnings,
        vec![
            Warning::UnknownKey("EpilepsyWarning".to_string()),
            Warning::UnknownKey("Genre".to_string()),
            Warning::UnknownKey("Mode".to_string()),
            Warning::UnknownKey("Title".to_string()),
        ]
    );
}

#[test]
fn line_without_a_colon_is_reported_and_skipped() {
    let text = lines(&[
        "osu file format v14",
        "[General]",
        "no colon",
        "Mode: 2",
        "[Fonts]",
    ]);
    let (b, warnings) = parse_beatmap_with_warnings(&text).unwrap();
    assert_eq!(b.general.mode, 2);
    assert_eq!(
        warnings,
        vec![
            Warning::MalformedLine("no colon".to_string()),
            Warning::MalformedLine("[Fonts]".to_string()),
        ]
    );
}

#[test]
fn colours_are_discarded() {
    let text = lines(&[
        "osu file format v14",
        "[Colours]",
        "Combo1 : 255,128,0",
        "anything at all",
        "0,0,\"bg.jpg\"",
    ]);
    assert_eq!(parse_beatmap_with_warnings(&text), Ok((version_only(), vec![])));
}

#[test]
fn hit_objects_are_kept_row_by_row_in_file_order() {
    let text = lines(&[
        "osu file format v14",
        "[HitObjects]",
        "256,192,1000,5,0,0:0:0:0:",
        "100,100,1500,2,0,B|200:200,1,100",
        "x",
    ]);
    let b = parse_beatmap(&text).unwrap();
    assert_eq!(
        b.hit_objects,
        vec![
            vec!["256", "192", "1000", "5", "0", "0:0:0:0:"],
            vec!["100", "100", "1500", "2", "0", "B|200:200", "1", "100"],
            vec!["x"],
        ]
    );
}

#[test]
fn later_value_of_a_key_replaces_the_earlier_one() {
    let text = lines(&[
        "osu file format v14",
        "[General]",
        "Mode: 1",
        "Mode: 3",
        "[Metadata]",
        "Tags: a b",
        "Tags: c",
    ]);
    let b = parse_beatmap(&text).unwrap();
    assert_eq!(b.general.mode, 3);
    assert_eq!(b.metadata.tags, vec!["c"]);
}

#[test]
fn parsing_twice_gives_equal_results() {
    let text = full_file();
    assert_eq!(parse_beatmap(&text), parse_beatmap(&text));
    assert_eq!(parse_beatmap_with_warnings(&text), parse_beatmap_with_warnings(&text));
    assert_eq!(parse_beatmap("osu file format v9"), parse_beatmap("osu file format v9"));
}

fn full_file() -> String {
    [
        "osu file format v14",
        "",
        "[General]",
        "AudioFilename: audio.mp3",
        "AudioLeadIn: 0",
        "PreviewTime: 64366",
        "Countdown: 1",
        "SampleSet: Soft",
        "StackLeniency: 0.7",
        "Mode: 0",
        "LetterboxInBreaks: 0",
        "WidescreenStoryboard: 1",
        "",
        "[Editor]",
        "Bookmarks: 1000,2000,3000",
        "DistanceSpacing: 1.1",
        "BeatDivisor: 4",
        "GridSize: 4",
        "TimelineZoom: 2.1",
        "",
        "[Metadata]",
        "Title:Song Title",
        "TitleUnicode:曲名",
        "Artist:Artist",
        "ArtistUnicode:アーティスト",
        "Creator:Mapper",
        "Version:Hard",
        "Source:",
        "Tags:one two three",
        "BeatmapID:12345",
        "BeatmapSetID:6789",
        "",
        "[Difficulty]",
        "HPDrainRate:6",
        "CircleSize:4",
        "OverallDifficulty:7.5",
        "ApproachRate:9",
        "SliderMultiplier:1.8",
        "SliderTickRate:1",
        "",
        "[Events]",
        "//Background and Video events",
        "0,0,\"bg.jpg\",0,0",
        "//Break Periods",
        "2,30000,40000",
        "",
        "[TimingPoints]",
        "500,333.333333333333,4,2,0,70,1,0",
        "20500,-100,4,2,0,70,0,1",
        "",
        "[Colours]",
        "Combo1 : 255,0,0",
        "",
        "[HitObjects]",
        "64,64,500,5,0,0:0:0:0:",
        "128,128,833,1,0,0:0:0:0:",
        "",
    ]
    .join("\r\n")
}

#[test]
fn full_file_is_read_field_by_field() {
    let (b, warnings) = parse_beatmap_with_warnings(&full_file()).unwrap();
    assert!(warnings.is_empty());
    assert_eq!(b.version, "14");
    assert_eq!(b.general.audio, "audio.mp3");
    assert_eq!(b.general.audio_lead_in, 0);
    assert_eq!(b.general.preview_time, 64366);
    assert_eq!(b.general.countdown, 1);
    assert_eq!(b.general.sample_set, "Soft");
    assert_eq!(b.general.stack_leniency, "0.7");
    assert_eq!(b.general.mode, 0);
    assert!(!b.general.letterbox_in_breaks);
    assert!(b.general.widescreen_storyboard);
    assert_eq!(b.editor.bookmarks, vec![1000, 2000, 3000]);
    assert_eq!(b.editor.distance_spacing, "1.1");
    assert_eq!(b.editor.beat_divisor, 4);
    assert_eq!(b.editor.grid_size, 4);
    assert_eq!(b.editor.timeline_zoom, "2.1");
    assert_eq!(b.metadata.title, "Song Title");
    assert_eq!(b.metadata.title_unicode, "曲名");
    assert_eq!(b.metadata.artist, "Artist");
    assert_eq!(b.metadata.artist_unicode, "アーティスト");
    assert_eq!(b.metadata.creator, "Mapper");
    assert_eq!(b.metadata.version, "Hard");
    assert_eq!(b.metadata.source, "");
    assert_eq!(b.metadata.tags, vec!["one", "two", "three"]);
    assert_eq!(b.metadata.beatmap_id, 12345);
    assert_eq!(b.metadata.beatmap_set_id, 6789);
    assert_eq!(b.difficulty.hp_drain_rate, "6");
    assert_eq!(b.difficulty.circle_size, "4");
    assert_eq!(b.difficulty.overall_difficulty, "7.5");
    assert_eq!(b.difficulty.approach_rate, "9");
    assert_eq!(b.difficulty.slider_multiplier, "1.8");
    assert_eq!(b.difficulty.slider_tick_rate, "1");
    assert_eq!(b.difficulty.overall_difficulty.parse::<f32>().unwrap_or(0.0), 7.5f32);
    assert_eq!(b.events.bg_src, "bg.jpg");
    assert_eq!(b.timing_points.len(), 2);
    assert_eq!(b.timing_points[0].time, 500);
    assert_eq!(b.timing_points[0].beat_length, "333.333333333333");
    assert!(b.timing_points[0].uninherited);
    assert_eq!(b.timing_points[1].time, 20500);
    assert_eq!(b.timing_points[1].beat_length, "-100");
    assert!(!b.timing_points[1].uninherited);
    assert_eq!(b.timing_points[1].effects, "1");
    assert_eq!(b.hit_objects.len(), 2);
    assert_eq!(b.hit_objects[1], vec!["128", "128", "833", "1", "0", "0:0:0:0:"]);
}

#[test]
fn parser_new_starts_in_the_preamble() {
    let p = Parser::new();
    assert_eq!(p.section, CurrentSection::Default);
    assert!(!p.background_seen);
    assert_eq!(p.beatmap, OsuBeatmap::default());
    assert!(p.warnings.is_empty());
}

#[test]
fn parser_feed_follows_the_headers() {
    let mut p = Parser::new();
    assert_eq!(p.feed("osu file format v14"), Ok(()));
    assert_eq!(p.beatmap.version, "14");
    assert_eq!(p.section, CurrentSection::Default);
    assert_eq!(p.feed("[Metadata]"), Ok(()));
    assert_eq!(p.section, CurrentSection::Metadata);
    assert_eq!(p.feed("Title: X"), Ok(()));
    assert_eq!(p.beatmap.metadata.title, "X");
    assert_eq!(p.feed("[TimingPoints]"), Ok(()));
    assert_eq!(p.section, CurrentSection::TimingPoints);
    assert_eq!(p.feed("Title: Y"), Ok(()));
    assert_eq!(p.beatmap.metadata.title, "X");
    assert_eq!(p.warnings, vec![Warning::InvalidTimingPoint("Title: Y".to_string())]);
    let (b, warnings) = p.finish().unwrap();
    assert_eq!(b.metadata.title, "X");
    assert_eq!(warnings.len(), 1);
}

#[test]
fn parser_feed_leaves_the_reader_unchanged_on_a_refused_line() {
    let mut p = Parser::new();
    assert_eq!(p.feed("osu file format v14"), Ok(()));
    let before = p.clone();
    assert_eq!(p.feed("osu file format v11"), Err(ParseError::UnsupportedVersion));
    assert_eq!(p, before);
}

#[test]
fn parser_finish_asks_for_a_declared_version() {
    assert_eq!(Parser::new().finish(), Err(ParseError::MissingVersion));
    let mut p = Parser::new();
    assert_eq!(p.feed("[HitObjects]"), Ok(()));
    assert_eq!(p.feed("1,2,3"), Ok(()));
    assert_eq!(p.finish(), Err(ParseError::MissingVersion));
}

#[test]
fn parser_feed_takes_the_background_once() {
    let mut p = Parser::new();
    p.section = CurrentSection::Events;
    assert_eq!(p.feed("0,0,\"one.jpg\""), Ok(()));
    assert!(p.background_seen);
    assert_eq!(p.feed("0,0,\"two.jpg\""), Ok(()));
    assert_eq!(p.beatmap.events.bg_src, "one.jpg");
    assert_eq!(p.feed(""), Ok(()));
    assert_eq!(p.warnings, vec![Warning::MalformedLine("".to_string())]);
}
