//! Dispatch and lifecycle-contract layer for the empty-sector-update protocol
//! of a proof-of-storage system.
//!
//! The layer itself performs no I/O and no cryptography: it gates the protocol
//! version, resolves a runtime sector size to one of a fixed set of statically
//! distinct tree shapes, derives the backend configuration parameters, and
//! marshals every operation's arguments, unchanged, into a call description
//! for the external proving backend.

pub mod config;
pub mod error;
pub mod shape;
pub mod types;
pub mod update;
