//! Decode-and-playback engine: probing hints, track timing, the playback
//! controller, the per-callback decode cursor and the progress display.
pub mod control;
pub mod cursor;
pub mod display;
pub mod laws;
pub mod timing;
