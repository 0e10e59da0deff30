//! The error taxonomy.  Every failure in the engine is reported through one
//! of these types; none of the library's verified functions panics.

use vstd::prelude::*;

verus! {

/// Why a fetch did not yield a usable body.
#[derive(Debug)]
pub enum FetchError {
    /// The URL was rejected before any network work was attempted.
    Invalid,
    /// The retrieval itself failed: connection, DNS, timeout, or a
    /// non-success status.  Carries the transport's own description.
    Transport(String),
    /// The body exceeded the configured size bound.  Reported, never a crash.
    TooLarge,
}

/// Why raw bytes did not decode into a feed.
#[derive(Debug)]
pub enum ParseError {
    /// The bytes are not a recognizable feed format.
    Malformed(String),
}

/// Why `get_or_fetch` failed: which stage broke, with its own error inside.
#[derive(Debug)]
pub enum CacheError {
    Fetch(FetchError),
    Parse(ParseError),
}

/// Why a control request could not be carried out.
#[derive(Debug)]
pub enum DispatchError {
    /// The action name is not one of the recognized commands.
    /// Carries the action as it arrived.
    UnknownAction(String),
    /// The action is known but too few parameters came with it.
    MissingArgument,
}

} // verus!
