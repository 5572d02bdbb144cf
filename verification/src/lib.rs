//! Game session recording library for League of Legends matches.
//!
//! The library watches the local client's match lifecycle, drives screen
//! recording start/stop decisions, synthesizes inventory events from live
//! game snapshots, reconciles live-captured events with authoritative
//! post-match data, and assembles the metadata sidecar for each recording.
//!
//! All decision logic is verified; transports (REST, websocket, screen
//! capture, disk) live outside the library and hand it plain values.

pub mod collector;
pub mod credentials;
pub mod events;
pub mod identity;
pub mod lp;
pub mod modes;
pub mod poller;
pub mod reconcile;
pub mod session;
pub mod settings;
pub mod sidecar;
pub mod text;
pub mod types;
