//! A self-reseeding, thread-confined random byte generator.
//!
//! The heart of the crate is [`reseeding::ReseedingGenerator`]: it wraps a
//! deterministic keyed generator together with an entropy source, counts the
//! bytes it hands out, and draws a fresh key from the entropy source before
//! any output would be produced past the configured byte budget.
use vstd::prelude::*;

pub mod error;
pub mod mock;
pub mod reseeding;
pub mod system;
pub mod traits;

verus! {

/// Number of bytes a generator may emit on one key before it must draw a
/// fresh key from its entropy source.
///
/// Reseeding costs about as much as emitting a few KiB, so the default is
/// large enough to make that cost negligible, yet small enough that any one
/// key only ever covers a bounded stretch of output.
pub const RESEED_THRESHOLD: u64 = 32 * 1024 * 1024;

} // verus!
