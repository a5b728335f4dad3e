//! A live mirror of the audio server's input devices ("sources") and of the
//! streams that record from them ("source outputs").
//!
//! The server is authoritative. It announces every change as a notification
//! `(operation, index)`; the mirror answers by fetching the current
//! description of the entity, reconciling it into an ordered registry and
//! publishing one normalised [`Event`] to any number of consumers.
//!
//! Everything here is sequential and free of I/O: a step takes the state
//! and what the server said, and leaves the next state and what has to be
//! done next. Talking to the server, locking and scheduling are the
//! caller's business.

pub mod broadcast;
pub mod client;
pub mod event;
pub mod registry;
pub mod source;
pub mod source_output;
pub mod text;
pub mod volume;

pub use broadcast::Broadcaster;
pub use client::{Client, Command};
pub use event::{Completion, Event, Fetch, ListResult, Operation, Outcome};
pub use registry::{Record, Registry};
pub use source::{Source, SourceInfo, SourceState};
pub use source_output::{SourceOutput, SourceOutputInfo};
pub use volume::VolumeLevels;
