//! Session launcher for a peer-to-peer networking runtime: encodes a typed
//! session description into the exact command-line grammar of the external
//! hosting tool, and models the launch/shutdown lifecycle that coordinates
//! the spawned process with an optional local callback server.

pub mod address;
pub mod codec;
pub mod guid;
pub mod lifecycle;
pub mod options;
pub mod plan;
