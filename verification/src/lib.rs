//! An incremental codec engine: pull-based chunk producers, push-based
//! incremental consumers, a bounded stream buffering algorithm with
//! separator-delimited framing, and a streaming JSON codec built on top.

use vstd::prelude::*;

pub mod auto_separated;
pub mod chunk;
pub mod consumer;
pub mod converters;
pub mod errors;
pub mod json;
pub mod line;
pub mod noop;
pub mod producer;
pub mod protocols;
pub mod serializer;
pub mod tools;

verus! {

/// Marker trait used to close the set of types that may implement the
/// high-level protocol traits.
pub trait Sealed {
}

} // verus!
