//! Publication of the engine's liveness and address: an in-process status
//! register, and the planning of an on-disk mirror that other processes poll.

pub mod status;
pub mod paths;
pub mod info_file;
