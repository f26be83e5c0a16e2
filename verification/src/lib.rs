//! Reader for the line-oriented `.osu` beatmap text format.
//!
//! [`parse_beatmap`] turns the text of a beatmap file into an [`OsuBeatmap`];
//! [`Parser`] does the same one line at a time. What either returns is stated
//! over the models in [`beatmap`] and the reading rules in [`parser`], and
//! [`laws`] holds what follows from those rules for every file.

pub mod beatmap;
pub mod key_value;
pub mod laws;
pub mod number;
pub mod parser;
pub mod rows;
pub mod section;
pub mod text;
pub mod version;

pub use beatmap::{Difficulty, Editor, Events, General, Metadata, OsuBeatmap, TimingPoint};
pub use key_value::KeyValue;
pub use number::int_to_bool;
pub use parser::{parse_beatmap, parse_beatmap_with_warnings, Parser, Warning};
pub use rows::EventLine;
pub use section::CurrentSection;
pub use version::ParseError;
