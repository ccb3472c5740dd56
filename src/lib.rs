//! The logic of a small command-line meme fetcher: the record that one
//! response yields, the text that the program prints, and the fetch loop
//! as a state machine that a driver runs, performing each action it asks for.

pub mod fetch_loop;
pub mod meme;
pub mod report;
pub mod runs;
pub mod text;

pub use fetch_loop::{Action, Event, FetchLoop, Phase};
pub use meme::Meme;
pub use report::{header_line, progress_line, rate_hundredths, seconds_hundredths, summary_line};
pub use text::{push_decimal, push_fixed2, unit_word};
