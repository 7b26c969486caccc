//! Planning core of a caching media retrieval service.
//!
//! Given a reference to an item, the service materializes an audio or video
//! artifact of it in a cache directory and serves repeat requests from
//! there. This crate decides what is to be done and in which order; it
//! performs no input or output itself. Its caller runs the external fetch
//! and transcode tools and touches the file system, and hands the outcomes
//! back as plain values.
//!
//! - `ident` resolves the identifier of an item from a reference.
//! - `media` derives file names and cache keys; `policy` holds the duration
//!   ceiling; `config` the settings.
//! - `fetch` and `transcode` say how the two tools are invoked and how a
//!   probe is read; `sweep` chooses the leftovers to remove; `cache` looks
//!   keys up and places artifacts.
//! - `protocol` and `pipeline` are the materialization as a state machine;
//!   `runs` and `history` state what holds of it, the latter over the
//!   model of the file system in `world`.
//! - `redirect`, `http`, `info`, `messages` and `setup` serve the routes
//!   around it.

pub mod text;
pub mod ident;
pub mod media;
pub mod config;
pub mod policy;
pub mod fetch;
pub mod transcode;
pub mod sweep;
pub mod protocol;
pub mod cache;
pub mod pipeline;
pub mod runs;
pub mod world;
pub mod history;
pub mod info;
pub mod redirect;
pub mod http;
pub mod setup;
pub mod messages;
