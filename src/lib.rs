//! A compute-and-cache protocol: a computation unit writes its output to a
//! scratch file, names the artifact by a key derived from that output, the
//! scratch file is persisted as `<cache_dir>/cachefile-<key>`, and the unit
//! reloads itself from the bytes it wrote.
//!
//! The library holds the protocol's decisions; whoever drives it performs the
//! actions it asks for (file handling, message delivery) and reports back.

pub mod cache_path;
pub mod orchestrator;
pub mod messages;
pub mod cache_actor;
pub mod unit_lifecycle;
pub mod runs;
