//! Verified core of a terminal audiobook player.
//!
//! The library holds the logic of the player: the ring buffer that bridges
//! decoding and the audio device, the playback engine state machine, the
//! track/position orchestrator that maps a book-global timeline onto
//! independently loaded tracks, and the supporting data model.  All time is
//! carried as integer milliseconds and all audio as interleaved signed
//! 16-bit PCM samples, so that every function here can be verified.
//! Device, file and network I/O live outside the library and talk to it
//! through plain values.

pub mod api_models;
pub mod book;
pub mod config;
pub mod console;
pub mod cover;
pub mod engine;
pub mod engine_laws;
pub mod layout;
pub mod loading;
pub mod matching;
pub mod nav;
pub mod notify;
pub mod orchestrator;
pub mod playback_state;
pub mod probe;
pub mod ring;
pub mod scanner;
pub mod text;
pub mod theme;
pub mod timecode;
pub mod tracks;

use vstd::prelude::*;

verus! {

} // verus!
