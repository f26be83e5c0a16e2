//! The record that a beatmap file is read into, and its mathematical model.
//!
//! Every record here has a view: the same fields with a text as the sequence
//! of its characters and an integer as a mathematical integer. Contracts
//! speak of the views.
//!
//! A decimal field keeps the text it was written with. Turning that text into
//! a binary floating-point number, with zero for a text that spells none, is
//! left to the reader of the record.

use vstd::prelude::*;
use crate::text::strings_view;

verus! {

/// General settings of a beatmap.
#[derive(Debug, Clone, PartialEq, Eq)]
pub struct General {
    /// Name of the audio file.
    pub audio: String,
    /// Milliseconds of silence before the audio starts.
    pub audio_lead_in: i32,
    /// Millisecond at which the audio preview starts.
    pub preview_time: i32,
    /// Speed of the countdown before the first object.
    pub countdown: i32,
    /// Name of the default sample set.
    pub sample_set: String,
    /// Decimal, as written: how readily objects stack.
    pub stack_leniency: String,
    /// Game mode.
    pub mode: i32,
    /// Whether breaks have a letterbox.
    pub letterbox_in_breaks: bool,
    /// Whether the storyboard may use a widescreen.
    pub widescreen_storyboard: bool,
}

/// Model of [`General`].
pub struct GeneralView {
    pub audio: Seq<char>,
    pub audio_lead_in: int,
    pub preview_time: int,
    pub countdown: int,
    pub sample_set: Seq<char>,
    pub stack_leniency: Seq<char>,
    pub mode: int,
    pub letterbox_in_breaks: bool,
    pub widescreen_storyboard: bool,
}

impl GeneralView {
    /// The settings of a file that sets none.
    pub open spec fn empty() -> GeneralView {
        GeneralView {
            audio: Seq::empty(),
            audio_lead_in: 0,
            preview_time: 0,
            countdown: 0,
            sample_set: Seq::empty(),
            stack_leniency: Seq::empty(),
            mode: 0,
            letterbox_in_breaks: false,
            widescreen_storyboard: false,
        }
    }
}

impl View for General {
    type V = GeneralView;

    open spec fn view(&self) -> GeneralView {
        GeneralView {
            audio: self.audio@,
            audio_lead_in: self.audio_lead_in as int,
            preview_time: self.preview_time as int,
            countdown: self.countdown as int,
            sample_set: self.sample_set@,
            stack_leniency: self.stack_leniency@,
            mode: self.mode as int,
            letterbox_in_breaks: self.letterbox_in_breaks,
            widescreen_storyboard: self.widescreen_storyboard,
        }
    }
}

impl Default for General {
    fn default() -> (general: General)
        ensures
            general@ == GeneralView::empty(),
    {
        General {
            audio: String::new(),
            audio_lead_in: 0,
            preview_time: 0,
            countdown: 0,
            sample_set: String::new(),
            stack_leniency: String::new(),
            mode: 0,
            letterbox_in_breaks: false,
            widescreen_storyboard: false,
        }
    }
}

/// Settings saved by the beatmap editor.
#[derive(Debug, Clone, PartialEq, Eq)]
pub struct Editor {
    /// Bookmarked times in milliseconds, in the order written.
    pub bookmarks: Vec<i32>,
    /// Decimal, as written: multiplier of the distance snap.
    pub distance_spacing: String,
    /// Beat snap divisor.
    pub beat_divisor: i32,
    /// Size of the grid.
    pub grid_size: i32,
    /// Decimal, as written: scale of the object timeline.
    pub timeline_zoom: String,
}

/// Model of [`Editor`].
pub struct EditorView {
    pub bookmarks: Seq<int>,
    pub distance_spacing: Seq<char>,
    pub beat_divisor: int,
    pub grid_size: int,
    pub timeline_zoom: Seq<char>,
}

impl EditorView {
    /// The settings of a file that sets none.
    pub open spec fn empty() -> EditorView {
        EditorView {
            bookmarks: Seq::empty(),
            distance_spacing: Seq::empty(),
            beat_divisor: 0,
            grid_size: 0,
            timeline_zoom: Seq::empty(),
        }
    }
}

/// The numbers of a vector as mathematical integers.
pub open spec fn ints_view(numbers: Seq<i32>) -> Seq<int> {
    Seq::new(numbers.len(), |i: int| numbers[i] as int)
}

impl View for Editor {
    type V = EditorView;

    open spec fn view(&self) -> EditorView {
        EditorView {
            bookmarks: ints_view(self.bookmarks@),
            distance_spacing: self.distance_spacing@,
            beat_divisor: self.beat_divisor as int,
            grid_size: self.grid_size as int,
            timeline_zoom: self.timeline_zoom@,
        }
    }
}

impl Default for Editor {
    fn default() -> (editor: Editor)
        ensures
            editor@ == EditorView::empty(),
    {
        let editor = Editor {
            bookmarks: Vec::new(),
            distance_spacing: String::new(),
            beat_divisor: 0,
            grid_size: 0,
            timeline_zoom: String::new(),
        };
        assert(ints_view(editor.bookmarks@) =~= Seq::<int>::empty());
        editor
    }
}

/// Information that identifies a beatmap.
#[derive(Debug, Clone, PartialEq, Eq)]
pub struct Metadata {
    /// Romanised song title.
    pub title: String,
    /// Song title.
    pub title_unicode: String,
    /// Romanised artist name.
    pub artist: String,
    /// Artist name.
    pub artist_unicode: String,
    /// Name of the beatmap's author.
    pub creator: String,
    /// Name of the difficulty; not the version of the file format.
    pub version: String,
    /// Where the song comes from.
    pub source: String,
    /// Search terms, in the order written.
    pub tags: Vec<String>,
    /// Identifier of the difficulty.
    pub beatmap_id: i32,
    /// Identifier of the beatmap set.
    pub beatmap_set_id: i32,
}

/// Model of [`Metadata`].
pub struct MetadataView {
    pub title: Seq<char>,
    pub title_unicode: Seq<char>,
    pub artist: Seq<char>,
    pub artist_unicode: Seq<char>,
    pub creator: Seq<char>,
    pub version: Seq<char>,
    pub source: Seq<char>,
    pub tags: Seq<Seq<char>>,
    pub beatmap_id: int,
    pub beatmap_set_id: int,
}

impl MetadataView {
    /// The metadata of a file that sets none.
    pub open spec fn empty() -> MetadataView {
        MetadataView {
            title: Seq::empty(),
            title_unicode: Seq::empty(),
            artist: Seq::empty(),
            artist_unicode: Seq::empty(),
            creator: Seq::empty(),
            version: Seq::empty(),
            source: Seq::empty(),
            tags: Seq::empty(),
            beatmap_id: 0,
            beatmap_set_id: 0,
        }
    }
}

impl View for Metadata {
    type V = MetadataView;

    open spec fn view(&self) -> MetadataView {
        MetadataView {
            title: self.title@,
            title_unicode: self.title_unicode@,
            artist: self.artist@,
            artist_unicode: self.artist_unicode@,
            creator: self.creator@,
            version: self.version@,
            source: self.source@,
            tags: strings_view(self.tags@),
            beatmap_id: self.beatmap_id as int,
            beatmap_set_id: self.beatmap_set_id as int,
        }
    }
}

impl Default for Metadata {
    fn default() -> (metadata: Metadata)
        ensures
            metadata@ == MetadataView::empty(),
    {
        let metadata = Metadata {
            title: String::new(),
            title_unicode: String::new(),
            artist: String::new(),
            artist_unicode: String::new(),
            creator: String::new(),
            version: String::new(),
            source: String::new(),
            tags: Vec::new(),
            beatmap_id: 0,
            beatmap_set_id: 0,
        };
        assert(strings_view(metadata.tags@) =~= Seq::<Seq<char>>::empty());
        metadata
    }
}

/// Difficulty settings, each a decimal kept as written.
#[derive(Debug, Clone, PartialEq, Eq)]
pub struct Difficulty {
    pub hp_drain_rate: String,
    pub circle_size: String,
    pub overall_difficulty: String,
    pub approach_rate: String,
    pub slider_multiplier: String,
    pub slider_tick_rate: String,
}

/// Model of [`Difficulty`].
pub struct DifficultyView {
    pub hp_drain_rate: Seq<char>,
    pub circle_size: Seq<char>,
    pub overall_difficulty: Seq<char>,
    pub approach_rate: Seq<char>,
    pub slider_multiplier: Seq<char>,
    pub slider_tick_rate: Seq<char>,
}

impl DifficultyView {
    /// The difficulty of a file that sets none.
    pub open spec fn empty() -> DifficultyView {
        DifficultyView {
            hp_drain_rate: Seq::empty(),
            circle_size: Seq::empty(),
            overall_difficulty: Seq::empty(),
            approach_rate: Seq::empty(),
            slider_multiplier: Seq::empty(),
            slider_tick_rate: Seq::empty(),
        }
    }
}

impl View for Difficulty {
    type V = DifficultyView;

    open spec fn view(&self) -> DifficultyView {
        DifficultyView {
            hp_drain_rate: self.hp_drain_rate@,
            circle_size: self.circle_size@,
            overall_difficulty: self.overall_difficulty@,
            approach_rate: self.approach_rate@,
            slider_multiplier: self.slider_multiplier@,
            slider_tick_rate: self.slider_tick_rate@,
        }
    }
}

impl Default for Difficulty {
    fn default() -> (difficulty: Difficulty)
        ensures
            difficulty@ == DifficultyView::empty(),
    {
        Difficulty {
            hp_drain_rate: String::new(),
            circle_size: String::new(),
            overall_difficulty: String::new(),
            approach_rate: String::new(),
            slider_multiplier: String::new(),
            slider_tick_rate: String::new(),
        }
    }
}

/// What is kept of the events of a beatmap: its background image.
#[derive(Debug, Clone, PartialEq, Eq)]
pub struct Events {
    /// Path of the background image.
    pub bg_src: String,
}

/// Model of [`Events`].
pub struct EventsView {
    pub bg_src: Seq<char>,
}

impl EventsView {
    /// The events of a file that declares no background.
    pub open spec fn empty() -> EventsView {
        EventsView { bg_src: Seq::empty() }
    }
}

impl View for Events {
    type V = EventsView;

    open spec fn view(&self) -> EventsView {
        EventsView { bg_src: self.bg_src@ }
    }
}

impl Default for Events {
    fn default() -> (events: Events)
        ensures
            events@ == EventsView::empty(),
    {
        Events { bg_src: String::new() }
    }
}

/// A point of the timeline from which tempo and sample settings hold.
#[derive(Debug, Clone, PartialEq, Eq)]
pub struct TimingPoint {
    /// Millisecond at which the point starts.
    pub time: i32,
    /// Decimal, as written: milliseconds per beat, or a negative multiplier.
    pub beat_length: String,
    /// Beats in a measure.
    pub meter: i32,
    /// Default sample set of the objects.
    pub sample_set: i32,
    /// Index of the custom samples.
    pub sample_index: i32,
    /// Volume in percent.
    pub volume: i32,
    /// Whether the point sets its own tempo.
    pub uninherited: bool,
    /// Effect flags, as written.
    pub effects: String,
}

/// Model of [`TimingPoint`].
pub struct TimingPointView {
    pub time: int,
    pub beat_length: Seq<char>,
    pub meter: int,
    pub sample_set: int,
    pub sample_index: int,
    pub volume: int,
    pub uninherited: bool,
    pub effects: Seq<char>,
}

impl View for TimingPoint {
    type V = TimingPointView;

    open spec fn view(&self) -> TimingPointView {
        TimingPointView {
            time: self.time as int,
            beat_length: self.beat_length@,
            meter: self.meter as int,
            sample_set: self.sample_set as int,
            sample_index: self.sample_index as int,
            volume: self.volume as int,
            uninherited: self.uninherited,
            effects: self.effects@,
        }
    }
}

/// What a vector of timing points holds, as a sequence of their models.
pub open spec fn timing_points_view(points: Seq<TimingPoint>) -> Seq<TimingPointView> {
    Seq::new(points.len(), |i: int| points[i]@)
}

/// What a vector of hit-object rows holds, each row as its fields' texts.
pub open spec fn rows_view(rows: Seq<Vec<String>>) -> Seq<Seq<Seq<char>>> {
    Seq::new(rows.len(), |i: int| strings_view(rows[i]@))
}

/// A beatmap as read from a file.
#[derive(Debug, Clone, PartialEq, Eq)]
pub struct OsuBeatmap {
    /// Version of the file format.
    pub version: String,
    pub general: General,
    pub editor: Editor,
    pub metadata: Metadata,
    pub difficulty: Difficulty,
    pub events: Events,
    /// Timing points, in file order.
    pub timing_points: Vec<TimingPoint>,
    /// Hit objects, in file order, each as the fields of its row.
    pub hit_objects: Vec<Vec<String>>,
}

/// Model of [`OsuBeatmap`].
pub struct OsuBeatmapView {
    pub version: Seq<char>,
    pub general: GeneralView,
    pub editor: EditorView,
    pub metadata: MetadataView,
    pub difficulty: DifficultyView,
    pub events: EventsView,
    pub timing_points: Seq<TimingPointView>,
    pub hit_objects: Seq<Seq<Seq<char>>>,
}

impl OsuBeatmapView {
    /// The beatmap before any line is read: every field at its zero value.
    pub open spec fn empty() -> OsuBeatmapView {
        OsuBeatmapView {
            version: Seq::empty(),
            general: GeneralView::empty(),
            editor: EditorView::empty(),
            metadata: MetadataView::empty(),
            difficulty: DifficultyView::empty(),
            events: EventsView::empty(),
            timing_points: Seq::empty(),
            hit_objects: Seq::empty(),
        }
    }
}

impl View for OsuBeatmap {
    type V = OsuBeatmapView;

    open spec fn view(&self) -> OsuBeatmapView {
        OsuBeatmapView {
            version: self.version@,
            general: self.general@,
            editor: self.editor@,
            metadata: self.metadata@,
            difficulty: self.difficulty@,
            events: self.events@,
            timing_points: timing_points_view(self.timing_points@),
            hit_objects: rows_view(self.hit_objects@),
        }
    }
}

impl Default for OsuBeatmap {
    fn default() -> (beatmap: OsuBeatmap)
        ensures
            beatmap@ == OsuBeatmapView::empty(),
    {
        let beatmap = OsuBeatmap {
            version: String::new(),
            general: General::default(),
            editor: Editor::default(),
            metadata: Metadata::default(),
            difficulty: Difficulty::default(),
            events: Events::default(),
            timing_points: Vec::new(),
            hit_objects: Vec::new(),
        };
        assert(timing_points_view(beatmap.timing_points@) =~= Seq::<TimingPointView>::empty());
        assert(rows_view(beatmap.hit_objects@) =~= Seq::<Seq<Seq<char>>>::empty());
        beatmap
    }
}

} // verus!
