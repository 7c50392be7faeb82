//! Core logic of a headline reader: display records built from fetched
//! articles, an API-key check, and a per-frame poll loop that drains a
//! one-shot fetch session into the display list.

pub mod articles;
pub mod channel;
pub mod headlines;
pub mod laws;
