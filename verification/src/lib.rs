//! The decisions of a small WebRTC conferencing server: who is let into a room, what each
//! participant is told, which media objects are opened and closed, and which media worker a
//! room runs on. Everything here works on plain values; the program around it owns the
//! sockets, the channels and the media objects.

pub mod agenda;
pub mod audio_observer;
pub mod codecs;
pub mod conduct;
pub mod laws;
pub mod listing;
pub mod media;
pub mod peer;
pub mod relaying;
pub mod room;
pub mod rules;
pub mod server;
pub mod settings;
pub mod uid;
