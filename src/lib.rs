//! Multi-room playback coordination: per-device song queues, the speaker
//! supervisor's decisions, the player control protocol, the bus echo and
//! video search.

pub mod text;
pub mod song;
pub mod message;
pub mod playlist;
pub mod protocol;
pub mod supervisor;
pub mod launch;
pub mod devices;
pub mod echo;
pub mod search;
