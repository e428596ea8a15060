//! Session-control core for a live-captioning application.
//!
//! The library owns the logic of the captioning session: the supervisor
//! state machine that arbitrates operator commands against pipeline events,
//! the failure policy of the audio-capture reader, the scripted playback
//! engine used in test mode, transcript-line parsing, and wordlist
//! resolution.  Everything here is plain data in, plain data out; the
//! surrounding process (GUI, audio subprocess, remote recognition service)
//! drives these functions and performs the actual I/O.

pub mod capture;
pub mod channel;
pub mod config;
pub mod display;
pub mod playback;
pub mod supervisor;
pub mod text;
pub mod transcript;
pub mod wordlist;
