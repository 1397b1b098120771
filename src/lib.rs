//! Request execution and code export for an HTTP API-testing tool.
//!
//! `text` holds the string helpers shared by both parts, `snippet` turns a
//! request description into source code for one of several targets, and
//! `executor` holds the decisions around one HTTP round trip.
use vstd::prelude::*;

pub mod executor;
pub mod snippet;
pub mod text;

verus! {

} // verus!
