//! Drives a "now playing" status feed: a rotating list of lyric lines is
//! formatted into status messages, one per interval, with optional reload of
//! the formatting settings before every pass over the list.

pub mod error;
pub mod message;
pub mod settings;
pub mod feed;
pub mod laws;
