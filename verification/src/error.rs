//! Typed failures of the generator.
//!
//! An entropy source that cannot supply bytes is the only thing that can go
//! wrong here. The failure is surfaced as a typed error and never swallowed:
//! the generator refuses to emit output from a stale or half-seeded key.
use vstd::prelude::*;

verus! {

/// Failure of an entropy source: it could not supply unpredictable bytes.
#[derive(Clone, Copy, Debug, PartialEq, Eq, Structural)]
pub struct EntropyError {}

/// What a generator operation can report.
#[derive(Clone, Copy, Debug, PartialEq, Eq, Structural)]
pub enum Error {
    /// The entropy source failed while the generator was first seeded.
    EntropyUnavailable(EntropyError),
    /// The entropy source failed during a threshold-triggered reseed; the
    /// wrapped failure is the entropy source's own.
    ReseedFailed(EntropyError),
}

impl Error {
    /// A diagnostic that names entropy exhaustion as the cause.
    pub fn message(&self) -> (m: &'static str)
        ensures
            *self is EntropyUnavailable ==> m@ == "entropy source unavailable during initial seeding"@,
            *self is ReseedFailed ==> m@ == "entropy source unavailable during reseed"@,
    {
        match self {
            Error::EntropyUnavailable(_) => "entropy source unavailable during initial seeding",
            Error::ReseedFailed(_) => "entropy source unavailable during reseed",
        }
    }
}

} // verus!
