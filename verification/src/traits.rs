//! Contracts for the two external collaborators of the reseeding machine.
//!
//! The machine itself neither collects entropy nor runs a stream cipher: it
//! consumes an [`EntropySource`] ("fill a buffer with unpredictable bytes,
//! fallibly") and a [`CoreGenerator`] ("a deterministic keyed byte stream,
//! replaceable wholesale by a reseed") purely through the contracts below.
use vstd::prelude::*;
use crate::error::EntropyError;

verus! {

/// Upper bound on the position a core generator can be driven to on one key.
///
/// A key emits far fewer bytes than this before the reseeding machine
/// replaces it, so the bound costs callers nothing; it lets an implementation
/// keep its position in a fixed-width counter without overflow.
pub const POS_CAP: u128 = 0x1_0000_0000_0000_0000_0000_0000;

/// A provider of unpredictable bytes used to key and re-key a deterministic
/// generator. Drawing may fail; a failure leaves the draw count unchanged.
pub trait EntropySource: Sized {
    /// How many successful draws this source has answered so far.
    spec fn fills(&self) -> int;

    /// Whether this source is known never to fail a draw.
    spec fn never_fails(&self) -> bool;

    /// Whether this source's draws are a stated function of its state.
    ///
    /// Deterministic doubles answer true and say, through the functions
    /// below, exactly what each draw does; a source of real entropy keeps
    /// the default, and the deterministic clauses of `fill` say nothing.
    open spec fn deterministic() -> bool {
        false
    }

    /// The bytes the next successful draw writes, for deterministic sources.
    open spec fn planned(&self, len: int) -> Seq<u8> {
        Seq::empty()
    }

    /// Whether the next draw succeeds, for deterministic sources.
    open spec fn next_draw_succeeds(&self) -> bool {
        true
    }

    /// The state left by one successful draw, for deterministic sources.
    open spec fn after_draw(&self) -> Self {
        *self
    }

    /// Overwrite `dest` with unpredictable bytes, or report failure.
    ///
    /// Of a real entropy source nothing is promised about the bytes:
    /// unpredictability is the point. On failure the contents of `dest`
    /// are unspecified, but its length is kept either way. A deterministic
    /// source is pinned down completely: whether the draw succeeds, what
    /// it writes, and the state it leaves behind.
    fn fill(&mut self, dest: &mut Vec<u8>) -> (r: Result<(), EntropyError>)
        ensures
            final(dest)@.len() == old(dest)@.len(),
            r is Ok ==> final(self).fills() == old(self).fills() + 1,
            r is Err ==> final(self).fills() == old(self).fills(),
            old(self).never_fails() ==> r is Ok,
            final(self).never_fails() == old(self).never_fails(),
            Self::deterministic() ==> (r is Ok <==> old(self).next_draw_succeeds()),
            Self::deterministic() && r is Ok ==> final(dest)@ == old(self).planned(
                old(dest)@.len() as int,
            ),
            Self::deterministic() && r is Ok ==> *final(self) == old(self).after_draw(),
            Self::deterministic() && r is Err ==> *final(self) == *old(self) && final(dest)@
                == old(dest)@,
    ;
}

/// A deterministic, keyed generator of a byte stream.
///
/// A value of an implementing type is fully described by its key and its
/// position in that key's stream: byte `i` of the stream under key `k` is
/// `Self::stream_byte(k, i)`, the same on every machine and in every run.
/// State only ever advances by emission or is replaced wholesale by a reseed;
/// no partial reseed is observable.
pub trait CoreGenerator: Sized {
    /// The key material the generator currently runs on.
    ///
    /// The bodies here and below are defaults for implementations that are
    /// never verified; every implementation proved against this trait
    /// replaces them with its own model.
    open spec fn key(&self) -> Seq<u8> {
        Seq::empty()
    }

    /// How many stream bytes have been emitted on the current key.
    open spec fn pos(&self) -> int {
        0
    }

    /// Byte `i` of the stream determined by `key` alone.
    open spec fn stream_byte(key: Seq<u8>, i: int) -> u8 {
        0
    }

    /// How many bytes of key material a (re)seed consumes.
    open spec fn seed_len() -> int {
        0
    }

    /// The seed length as a runtime value; always positive.
    fn seed_size() -> (n: usize)
        ensures
            n as int == Self::seed_len(),
            0 < n,
    ;

    /// A generator freshly keyed with `seed`, at position zero.
    fn from_seed(seed: &Vec<u8>) -> (r: Self)
        requires
            seed@.len() == Self::seed_len(),
        ensures
            r.key() == seed@,
            r.pos() == 0,
    ;

    /// Replace the key wholesale with `seed` and restart the stream.
    fn reseed(&mut self, seed: &Vec<u8>)
        requires
            seed@.len() == Self::seed_len(),
        ensures
            final(self).key() == seed@,
            final(self).pos() == 0,
    ;

    /// Overwrite `dest` with the next `dest.len()` bytes of the stream.
    fn fill_bytes(&mut self, dest: &mut Vec<u8>)
        requires
            0 <= old(self).pos(),
            old(self).pos() + old(dest)@.len() <= POS_CAP as int,
        ensures
            final(self).key() == old(self).key(),
            final(self).pos() == old(self).pos() + old(dest)@.len(),
            final(dest)@.len() == old(dest)@.len(),
            forall |i: int| 0 <= i < old(dest)@.len() ==>
                final(dest)@[i] == Self::stream_byte(old(self).key(), old(self).pos() + i),
    ;
}

} // verus!
