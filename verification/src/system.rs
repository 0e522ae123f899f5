//! The operating system's entropy source.
use vstd::prelude::*;
use crate::error::EntropyError;
use crate::traits::EntropySource;

verus! {

/// Relies on getrandom::fill: overwrites the buffer in place with bytes
/// from the operating system's preferred randomness facility, or reports
/// failure. The slice passed down cannot change length, so neither does the
/// vector. Nothing more is promised: on success the bytes are unpredictable
/// by design, and on failure getrandom's documentation leaves the contents
/// unspecified.
#[verifier::external_body]
fn os_fill(dest: &mut Vec<u8>) -> (r: Result<(), EntropyError>)
    ensures
        final(dest)@.len() == old(dest)@.len(),
{
    match getrandom::fill(dest.as_mut_slice()) {
        Ok(()) => Ok(()),
        Err(_) => Err(EntropyError {}),
    }
}

/// An entropy source answering every draw from the operating system.
///
/// Draws can fail — during early boot, or when the system facility is
/// unavailable — so this source never claims to be infallible; a caller who
/// needs guaranteed output must go through the fallible interface and
/// decide what a failure means.
pub struct SystemEntropy {
    draws: Ghost<int>,
}

impl SystemEntropy {
    /// A fresh handle on the system facility; no draw has happened yet.
    pub fn new() -> (r: Self)
        ensures
            r.fills() == 0,
    {
        SystemEntropy { draws: Ghost(0) }
    }
}

impl EntropySource for SystemEntropy {
    closed spec fn fills(&self) -> int {
        self.draws@
    }

    open spec fn never_fails(&self) -> bool {
        false
    }

    fn fill(&mut self, dest: &mut Vec<u8>) -> (r: Result<(), EntropyError>) {
        match os_fill(dest) {
            Ok(()) => {
                self.draws = Ghost(self.draws@ + 1);
                Ok(())
            }
            Err(e) => Err(e),
        }
    }
}

} // verus!
