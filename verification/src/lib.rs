//! Core of a small desktop music player.
//!
//! The crate models the player's logic: the track and its parsed tag
//! metadata, the playback-state coordinator, the widget arithmetic of the
//! transport buttons and the timeline slider, and the directory/selection
//! state behind the library list.  Decoding, tag parsing and image decoding
//! are delegated to outside crates through a few trusted wrappers; the
//! device I/O and the rendering shell live outside this crate.

pub mod music_buttons;
pub mod music_path_entry_ui;
pub mod player;
pub mod service;
pub mod track;
