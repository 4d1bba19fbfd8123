//! The decisions of a falling-notes piano player: which song a menu label
//! selects, how the player reacts to each message, and which beat of a song
//! sounds on each animation frame.
pub mod songs;
pub mod playback;
pub mod model;
