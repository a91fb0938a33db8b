//! Quiz sessions and a spaced-repetition scheduler.
//!
//! The library holds the rules of a terminal quiz: how a session moves
//! between questions and answers, how it is scored, how the spaced-repetition
//! system (SRS) moves an item between its stages after a review and when the
//! item is due again, and how a key press changes the state of the program.
//! Storage and drawing stand outside the library; they hand it plain values.
pub mod clock;
pub mod controller;
pub mod quiz;
pub mod srs;
pub mod srs_quiz;
pub mod text;
pub mod ui;
