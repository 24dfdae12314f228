//! Peer supervision: what a peer daemon is started with.
pub mod supervisor;

pub use supervisor::{PeerSocket, RuntimeParams, SpawnMode};
