//! A feed acquisition-and-cache engine with a runtime command interface.
//!
//! The library owns the logic of a small syndication reader: validating and
//! screening fetched bodies, filtering decoded entries, caching them once
//! per URL for the life of the process, keeping the
//! ordered registry of feed sources, and dispatching the control commands
//! that mutate that registry.  Network retrieval, the feed decode itself,
//! and the wire framing of control exchanges stay outside, behind small
//! interfaces the engine is verified against.

pub mod control;
pub mod engine;
pub mod errors;
pub mod fetch;
pub mod model;
pub mod parse;
