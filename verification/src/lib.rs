//! Core logic of a desktop companion for a peer-to-peer file synchronization
//! daemon: parsing the daemon's conflict and version filename conventions,
//! scanning snapshots of a synced folder for conflicts, browsing and restoring
//! historical versions, accounting storage, and planning retention cleanups.
//!
//! All functions here are pure: filesystem state comes in as a snapshot
//! (`FsNode` trees) and destructive operations come out as plans (`FsAction`
//! lists) for the host to execute.

pub mod codec;
pub mod config;
pub mod conflicts;
pub mod errors;
pub mod format;
pub mod fsmodel;
pub mod pending;
pub mod storage;
pub mod system;
pub mod versions;
