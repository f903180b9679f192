//! Playback queue coordination for a voice-session music bot.
//!
//! The heart of the crate is the [`coordinator::Coordinator`]: it owns the
//! ordered list of pending tracks for one voice session, hands the next track
//! to the playback engine, and reacts to "track finished" events by either
//! advancing the queue or announcing completion.  Everything the coordinator
//! decides is stated in its contracts and proved; the surrounding gateway,
//! catalog, and audio plumbing are unverified collaborators that feed it plain
//! values and carry out the actions it returns.

pub mod coordinator;
pub mod data;
pub mod spotify;

pub use coordinator::Coordinator;
pub use data::Song;
