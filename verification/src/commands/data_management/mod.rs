//! Listing, measuring, playing and deleting saved recordings.

pub mod deletion;
pub mod listing;
pub mod names;
