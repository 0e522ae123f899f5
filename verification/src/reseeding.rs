//! The reseeding state machine.
//!
//! [`ReseedingGenerator`] wraps one deterministic core generator and one
//! entropy source. It counts every byte it hands out against a budget fixed
//! at construction; before any emission that would not fit the remaining
//! budget, it first draws fresh key material from the entropy source and
//! re-keys the core — all or nothing — so that no caller ever observes
//! output drawn past the threshold on a stale key. A failed draw is
//! surfaced as a typed error and leaves key, position, budget and the
//! destination buffer exactly as they were: no output is ever produced from
//! a stale or half-seeded key.
use vstd::prelude::*;
use crate::error::Error;
use crate::traits::{CoreGenerator, EntropySource};

verus! {

/// 32-bit word assembled little-endian from four bytes.
pub open spec fn le_u32(b0: u8, b1: u8, b2: u8, b3: u8) -> u32 {
    (b0 as u32) | ((b1 as u32) << 8) | ((b2 as u32) << 16) | ((b3 as u32) << 24)
}

/// 64-bit word assembled little-endian from eight bytes.
pub open spec fn le_u64(b0: u8, b1: u8, b2: u8, b3: u8, b4: u8, b5: u8, b6: u8, b7: u8) -> u64 {
    (b0 as u64) | ((b1 as u64) << 8) | ((b2 as u64) << 16) | ((b3 as u64) << 24)
        | ((b4 as u64) << 32) | ((b5 as u64) << 40) | ((b6 as u64) << 48) | ((b7 as u64) << 56)
}

/// The 32-bit word a core generator of type `C`, keyed with `key`, emits at
/// stream position `start`.
pub open spec fn word32_at<C: CoreGenerator>(key: Seq<u8>, start: int) -> u32 {
    le_u32(
        C::stream_byte(key, start),
        C::stream_byte(key, start + 1),
        C::stream_byte(key, start + 2),
        C::stream_byte(key, start + 3),
    )
}

/// The 64-bit word a core generator of type `C`, keyed with `key`, emits at
/// stream position `start`.
pub open spec fn word64_at<C: CoreGenerator>(key: Seq<u8>, start: int) -> u64 {
    le_u64(
        C::stream_byte(key, start),
        C::stream_byte(key, start + 1),
        C::stream_byte(key, start + 2),
        C::stream_byte(key, start + 3),
        C::stream_byte(key, start + 4),
        C::stream_byte(key, start + 5),
        C::stream_byte(key, start + 6),
        C::stream_byte(key, start + 7),
    )
}

/// A vector of `n` zero bytes.
fn zero_vec(n: usize) -> (v: Vec<u8>)
    ensures
        v@.len() == n as int,
{
    let mut v: Vec<u8> = Vec::new();
    let mut i: usize = 0;
    while i < n
        invariant
            i <= n,
            v@.len() == i as int,
        decreases n - i,
    {
        v.push(0);
        i = i + 1;
    }
    v
}

/// A core generator under a byte budget, re-keyed from an entropy source
/// before any emission the remaining budget cannot cover.
pub struct ReseedingGenerator<C: CoreGenerator, E: EntropySource> {
    inner: C,
    entropy_source: E,
    threshold: u64,
    bytes_until_reseed: i128,
}

impl<C: CoreGenerator, E: EntropySource> ReseedingGenerator<C, E> {
    /// Internal consistency: the threshold is positive, the budget never
    /// rises above it, never falls further below zero than one emission can
    /// take it, and the spent part of the budget is exactly the core's
    /// position in its current key's stream.
    pub closed spec fn wf(&self) -> bool {
        &&& 0 < self.threshold
        &&& self.bytes_until_reseed as int <= self.threshold as int
        &&& self.bytes_until_reseed as int > -0x1_0000_0000_0000_0000
        &&& self.inner.pos() == self.threshold as int - self.bytes_until_reseed as int
    }

    /// The key the core generator currently runs on.
    pub closed spec fn key(&self) -> Seq<u8> {
        self.inner.key()
    }

    /// Bytes emitted since the generator was last keyed.
    pub closed spec fn emitted(&self) -> int {
        self.inner.pos()
    }

    /// The byte budget one key may serve: the reseed threshold.
    pub closed spec fn limit(&self) -> int {
        self.threshold as int
    }

    /// Bytes still left of the current key's budget.
    pub closed spec fn budget(&self) -> int {
        self.bytes_until_reseed as int
    }

    /// Whether an emission of `n` bytes must be preceded by a reseed: the
    /// remaining budget cannot cover it.
    pub open spec fn needs_reseed(&self, n: int) -> bool {
        self.budget() < n
    }

    /// Successful entropy draws so far: one per seed event.
    pub closed spec fn seed_events(&self) -> int {
        self.entropy_source.fills()
    }

    /// The wrapped entropy source.
    pub closed spec fn source_view(&self) -> E {
        self.entropy_source
    }

    /// Wrap an already-seeded core. The budget starts full.
    pub fn new(inner: C, threshold: u64, entropy_source: E) -> (r: Self)
        requires
            0 < threshold,
            inner.pos() == 0,
        ensures
            r.wf(),
            r.key() == inner.key(),
            r.emitted() == 0,
            r.limit() == threshold as int,
            r.budget() == threshold as int,
            r.seed_events() == entropy_source.fills(),
            r.source_view() == entropy_source,
    {
        ReseedingGenerator {
            inner,
            entropy_source,
            threshold,
            bytes_until_reseed: threshold as i128,
        }
    }

    /// Build a generator whose first key is drawn from the entropy source.
    ///
    /// Fails exactly when that very draw fails, and then reports the
    /// failure as [`Error::EntropyUnavailable`]: a generator is never handed
    /// out with a weak or unset key.
    pub fn from_entropy(threshold: u64, entropy_source: E) -> (r: Result<Self, Error>)
        requires
            0 < threshold,
        ensures
            entropy_source.never_fails() ==> r is Ok,
            E::deterministic() && entropy_source.next_draw_succeeds() ==> r is Ok,
            E::deterministic() && !entropy_source.next_draw_succeeds() ==> r is Err,
            match r {
                Ok(g) => {
                    &&& g.wf()
                    &&& g.emitted() == 0
                    &&& g.limit() == threshold as int
                    &&& g.budget() == threshold as int
                    &&& g.key().len() == C::seed_len()
                    &&& g.seed_events() == entropy_source.fills() + 1
                    &&& g.source_view().never_fails() == entropy_source.never_fails()
                    &&& (E::deterministic() ==> g.key() == entropy_source.planned(C::seed_len())
                        && g.source_view() == entropy_source.after_draw())
                },
                Err(e) => {
                    &&& e is EntropyUnavailable
                    &&& !entropy_source.never_fails()
                    &&& (E::deterministic() ==> !entropy_source.next_draw_succeeds())
                },
            },
    {
        let mut source = entropy_source;
        let len = C::seed_size();
        let mut seed = zero_vec(len);
        match source.fill(&mut seed) {
            Ok(()) => Ok(ReseedingGenerator {
                inner: C::from_seed(&seed),
                entropy_source: source,
                threshold,
                bytes_until_reseed: threshold as i128,
            }),
            Err(e) => Err(Error::EntropyUnavailable(e)),
        }
    }

    /// If the remaining budget cannot cover an emission of `n` bytes, draw
    /// a fresh key and re-key the core; the reseed is all or nothing, and a
    /// failed draw changes neither key, position nor budget.
    fn reseed_if_due(&mut self, n: usize) -> (r: Result<(), Error>)
        requires
            old(self).wf(),
        ensures
            final(self).wf(),
            final(self).limit() == old(self).limit(),
            old(self).source_view().never_fails() ==> r is Ok,
            final(self).source_view().never_fails() == old(self).source_view().never_fails(),
            E::deterministic() && old(self).source_view().next_draw_succeeds() ==> r is Ok,
            E::deterministic() && old(self).needs_reseed(n as int) && !old(self).source_view()
                .next_draw_succeeds() ==> r is Err,
            match r {
                Ok(()) => (if old(self).needs_reseed(n as int) {
                    &&& final(self).seed_events() == old(self).seed_events() + 1
                    &&& final(self).key().len() == C::seed_len()
                    &&& final(self).emitted() == 0
                    &&& final(self).budget() == old(self).limit()
                    &&& (E::deterministic() ==> final(self).key() == old(self).source_view()
                        .planned(C::seed_len()) && final(self).source_view() == old(self)
                        .source_view().after_draw())
                } else {
                    *final(self) == *old(self)
                }),
                Err(e) => {
                    &&& e is ReseedFailed
                    &&& old(self).needs_reseed(n as int)
                    &&& final(self).key() == old(self).key()
                    &&& final(self).emitted() == old(self).emitted()
                    &&& final(self).budget() == old(self).budget()
                    &&& final(self).seed_events() == old(self).seed_events()
                    &&& (E::deterministic() ==> final(self).source_view() == old(self)
                        .source_view() && !old(self).source_view().next_draw_succeeds())
                },
            },
    {
        if self.bytes_until_reseed < (n as i128) {
            let len = C::seed_size();
            let mut seed = zero_vec(len);
            match self.entropy_source.fill(&mut seed) {
                Ok(()) => {
                    self.inner.reseed(&seed);
                    self.bytes_until_reseed = self.threshold as i128;
                    Ok(())
                }
                Err(e) => Err(Error::ReseedFailed(e)),
            }
        } else {
            Ok(())
        }
    }

    /// Overwrite `dest` with the next `dest.len()` bytes of output,
    /// reseeding first if the remaining budget cannot cover the request.
    ///
    /// Exactly one of three things happens. If the request fits the budget,
    /// the bytes continue the current key's stream and the budget shrinks
    /// by the request. If it does not and the reseed succeeds, the
    /// seed-event count rises by one and the bytes open a fresh key's
    /// stream. If it does not and the reseed fails, the typed error comes
    /// back and `dest`, key, position and budget are untouched.
    pub fn try_fill_bytes(&mut self, dest: &mut Vec<u8>) -> (r: Result<(), Error>)
        requires
            old(self).wf(),
        ensures
            final(self).wf(),
            final(self).limit() == old(self).limit(),
            final(dest)@.len() == old(dest)@.len(),
            old(self).source_view().never_fails() ==> r is Ok,
            final(self).source_view().never_fails() == old(self).source_view().never_fails(),
            E::deterministic() && old(self).source_view().next_draw_succeeds() ==> r is Ok,
            E::deterministic() && old(self).needs_reseed(old(dest)@.len() as int) && !old(self)
                .source_view().next_draw_succeeds() ==> r is Err,
            match r {
                Ok(()) => (if old(self).needs_reseed(old(dest)@.len() as int) {
                    &&& final(self).seed_events() == old(self).seed_events() + 1
                    &&& final(self).key().len() == C::seed_len()
                    &&& final(self).emitted() == old(dest)@.len()
                    &&& final(self).budget() == old(self).limit() - old(dest)@.len()
                    &&& forall |i: int| 0 <= i < old(dest)@.len() ==>
                            final(dest)@[i] == C::stream_byte(final(self).key(), i)
                    &&& (E::deterministic() ==> final(self).key() == old(self).source_view()
                        .planned(C::seed_len()) && final(self).source_view() == old(self)
                        .source_view().after_draw())
                } else {
                    &&& old(self).emitted() + old(dest)@.len() <= old(self).limit()
                    &&& final(self).seed_events() == old(self).seed_events()
                    &&& final(self).source_view() == old(self).source_view()
                    &&& final(self).key() == old(self).key()
                    &&& final(self).emitted() == old(self).emitted() + old(dest)@.len()
                    &&& final(self).budget() == old(self).budget() - old(dest)@.len()
                    &&& forall |i: int| 0 <= i < old(dest)@.len() ==>
                            final(dest)@[i] == C::stream_byte(old(self).key(), old(self).emitted() + i)
                }),
                Err(e) => {
                    &&& e is ReseedFailed
                    &&& old(self).needs_reseed(old(dest)@.len() as int)
                    &&& final(dest)@ == old(dest)@
                    &&& final(self).key() == old(self).key()
                    &&& final(self).emitted() == old(self).emitted()
                    &&& final(self).budget() == old(self).budget()
                    &&& final(self).seed_events() == old(self).seed_events()
                    &&& (E::deterministic() ==> final(self).source_view() == old(self)
                        .source_view() && !old(self).source_view().next_draw_succeeds())
                },
            },
    {
        let n = dest.len();
        match self.reseed_if_due(n) {
            Ok(()) => {}
            Err(e) => {
                return Err(e);
            }
        }
        self.inner.fill_bytes(dest);
        self.bytes_until_reseed = self.bytes_until_reseed - (n as i128);
        Ok(())
    }

    /// The next 32-bit word of output: four stream bytes, little-endian,
    /// budgeted and reseeded exactly like a four-byte fill.
    pub fn try_next_u32(&mut self) -> (r: Result<u32, Error>)
        requires
            old(self).wf(),
        ensures
            final(self).wf(),
            final(self).limit() == old(self).limit(),
            old(self).source_view().never_fails() ==> r is Ok,
            final(self).source_view().never_fails() == old(self).source_view().never_fails(),
            E::deterministic() && old(self).source_view().next_draw_succeeds() ==> r is Ok,
            E::deterministic() && old(self).needs_reseed(4) && !old(self).source_view()
                .next_draw_succeeds() ==> r is Err,
            match r {
                Ok(w) => (if old(self).needs_reseed(4) {
                    &&& final(self).seed_events() == old(self).seed_events() + 1
                    &&& final(self).key().len() == C::seed_len()
                    &&& final(self).emitted() == 4
                    &&& final(self).budget() == old(self).limit() - 4
                    &&& w == word32_at::<C>(final(self).key(), 0)
                    &&& (E::deterministic() ==> final(self).key() == old(self).source_view()
                        .planned(C::seed_len()) && final(self).source_view() == old(self)
                        .source_view().after_draw())
                } else {
                    &&& old(self).emitted() + 4 <= old(self).limit()
                    &&& final(self).seed_events() == old(self).seed_events()
                    &&& final(self).source_view() == old(self).source_view()
                    &&& final(self).key() == old(self).key()
                    &&& final(self).emitted() == old(self).emitted() + 4
                    &&& final(self).budget() == old(self).budget() - 4
                    &&& w == word32_at::<C>(old(self).key(), old(self).emitted())
                }),
                Err(e) => {
                    &&& e is ReseedFailed
                    &&& old(self).needs_reseed(4)
                    &&& final(self).key() == old(self).key()
                    &&& final(self).emitted() == old(self).emitted()
                    &&& final(self).budget() == old(self).budget()
                    &&& final(self).seed_events() == old(self).seed_events()
                    &&& (E::deterministic() ==> final(self).source_view() == old(self)
                        .source_view() && !old(self).source_view().next_draw_succeeds())
                },
            },
    {
        let mut buf = zero_vec(4);
        match self.try_fill_bytes(&mut buf) {
            Ok(()) => {
                let w = (buf[0] as u32) | ((buf[1] as u32) << 8) | ((buf[2] as u32) << 16)
                    | ((buf[3] as u32) << 24);
                Ok(w)
            }
            Err(e) => Err(e),
        }
    }

    /// The next 64-bit word of output: eight stream bytes, little-endian,
    /// budgeted and reseeded exactly like an eight-byte fill.
    pub fn try_next_u64(&mut self) -> (r: Result<u64, Error>)
        requires
            old(self).wf(),
        ensures
            final(self).wf(),
            final(self).limit() == old(self).limit(),
            old(self).source_view().never_fails() ==> r is Ok,
            final(self).source_view().never_fails() == old(self).source_view().never_fails(),
            E::deterministic() && old(self).source_view().next_draw_succeeds() ==> r is Ok,
            E::deterministic() && old(self).needs_reseed(8) && !old(self).source_view()
                .next_draw_succeeds() ==> r is Err,
            match r {
                Ok(w) => (if old(self).needs_reseed(8) {
                    &&& final(self).seed_events() == old(self).seed_events() + 1
                    &&& final(self).key().len() == C::seed_len()
                    &&& final(self).emitted() == 8
                    &&& final(self).budget() == old(self).limit() - 8
                    &&& w == word64_at::<C>(final(self).key(), 0)
                    &&& (E::deterministic() ==> final(self).key() == old(self).source_view()
                        .planned(C::seed_len()) && final(self).source_view() == old(self)
                        .source_view().after_draw())
                } else {
                    &&& old(self).emitted() + 8 <= old(self).limit()
                    &&& final(self).seed_events() == old(self).seed_events()
                    &&& final(self).source_view() == old(self).source_view()
                    &&& final(self).key() == old(self).key()
                    &&& final(self).emitted() == old(self).emitted() + 8
                    &&& final(self).budget() == old(self).budget() - 8
                    &&& w == word64_at::<C>(old(self).key(), old(self).emitted())
                }),
                Err(e) => {
                    &&& e is ReseedFailed
                    &&& old(self).needs_reseed(8)
                    &&& final(self).key() == old(self).key()
                    &&& final(self).emitted() == old(self).emitted()
                    &&& final(self).budget() == old(self).budget()
                    &&& final(self).seed_events() == old(self).seed_events()
                    &&& (E::deterministic() ==> final(self).source_view() == old(self)
                        .source_view() && !old(self).source_view().next_draw_succeeds())
                },
            },
    {
        let mut buf = zero_vec(8);
        match self.try_fill_bytes(&mut buf) {
            Ok(()) => {
                let w = (buf[0] as u64) | ((buf[1] as u64) << 8) | ((buf[2] as u64) << 16)
                    | ((buf[3] as u64) << 24) | ((buf[4] as u64) << 32) | ((buf[5] as u64) << 40)
                    | ((buf[6] as u64) << 48) | ((buf[7] as u64) << 56);
                Ok(w)
            }
            Err(e) => Err(e),
        }
    }

    /// Infallible fill, for entropy sources that cannot fail a draw.
    pub fn fill_bytes(&mut self, dest: &mut Vec<u8>)
        requires
            old(self).wf(),
            old(self).source_view().never_fails(),
        ensures
            final(self).wf(),
            final(self).limit() == old(self).limit(),
            final(dest)@.len() == old(dest)@.len(),
            final(self).source_view().never_fails(),
            (if old(self).needs_reseed(old(dest)@.len() as int) {
                &&& final(self).seed_events() == old(self).seed_events() + 1
                &&& final(self).key().len() == C::seed_len()
                &&& final(self).emitted() == old(dest)@.len()
                &&& final(self).budget() == old(self).limit() - old(dest)@.len()
                &&& forall |i: int| 0 <= i < old(dest)@.len() ==>
                        final(dest)@[i] == C::stream_byte(final(self).key(), i)
                &&& (E::deterministic() ==> final(self).key() == old(self).source_view()
                    .planned(C::seed_len()) && final(self).source_view() == old(self)
                    .source_view().after_draw())
            } else {
                &&& final(self).seed_events() == old(self).seed_events()
                &&& final(self).source_view() == old(self).source_view()
                &&& final(self).key() == old(self).key()
                &&& final(self).emitted() == old(self).emitted() + old(dest)@.len()
                &&& final(self).budget() == old(self).budget() - old(dest)@.len()
                &&& forall |i: int| 0 <= i < old(dest)@.len() ==>
                        final(dest)@[i] == C::stream_byte(old(self).key(), old(self).emitted() + i)
            }),
    {
        let r = self.try_fill_bytes(dest);
        match r {
            Ok(()) => {}
            Err(_) => {
                proof {
                    assert(false);
                }
            }
        }
    }

    /// Infallible 32-bit word, for entropy sources that cannot fail a draw.
    pub fn next_u32(&mut self) -> (w: u32)
        requires
            old(self).wf(),
            old(self).source_view().never_fails(),
        ensures
            final(self).wf(),
            final(self).limit() == old(self).limit(),
            final(self).source_view().never_fails(),
            (if old(self).needs_reseed(4) {
                &&& final(self).seed_events() == old(self).seed_events() + 1
                &&& final(self).emitted() == 4
                &&& final(self).budget() == old(self).limit() - 4
                &&& w == word32_at::<C>(final(self).key(), 0)
                &&& (E::deterministic() ==> final(self).key() == old(self).source_view()
                    .planned(C::seed_len()) && final(self).source_view() == old(self)
                    .source_view().after_draw())
            } else {
                &&& final(self).seed_events() == old(self).seed_events()
                &&& final(self).source_view() == old(self).source_view()
                &&& final(self).key() == old(self).key()
                &&& final(self).emitted() == old(self).emitted() + 4
                &&& final(self).budget() == old(self).budget() - 4
                &&& w == word32_at::<C>(old(self).key(), old(self).emitted())
            }),
    {
        match self.try_next_u32() {
            Ok(w) => w,
            Err(_) => {
                proof {
                    assert(false);
                }
                0
            }
        }
    }

    /// Infallible 64-bit word, for entropy sources that cannot fail a draw.
    pub fn next_u64(&mut self) -> (w: u64)
        requires
            old(self).wf(),
            old(self).source_view().never_fails(),
        ensures
            final(self).wf(),
            final(self).limit() == old(self).limit(),
            final(self).source_view().never_fails(),
            (if old(self).needs_reseed(8) {
                &&& final(self).seed_events() == old(self).seed_events() + 1
                &&& final(self).emitted() == 8
                &&& final(self).budget() == old(self).limit() - 8
                &&& w == word64_at::<C>(final(self).key(), 0)
                &&& (E::deterministic() ==> final(self).key() == old(self).source_view()
                    .planned(C::seed_len()) && final(self).source_view() == old(self)
                    .source_view().after_draw())
            } else {
                &&& final(self).seed_events() == old(self).seed_events()
                &&& final(self).source_view() == old(self).source_view()
                &&& final(self).key() == old(self).key()
                &&& final(self).emitted() == old(self).emitted() + 8
                &&& final(self).budget() == old(self).budget() - 8
                &&& w == word64_at::<C>(old(self).key(), old(self).emitted())
            }),
    {
        match self.try_next_u64() {
            Ok(w) => w,
            Err(_) => {
                proof {
                    assert(false);
                }
                0
            }
        }
    }

    /// Bytes still left of the current key's budget, as a runtime value.
    pub fn budget_left(&self) -> (b: i128)
        ensures
            b as int == self.budget(),
    {
        self.bytes_until_reseed
    }

    /// The reseed threshold this generator was built with.
    pub fn threshold_value(&self) -> (t: u64)
        ensures
            t as int == self.limit(),
    {
        self.threshold
    }

    /// A shared view of the wrapped entropy source, for inspection.
    pub fn entropy_ref(&self) -> (r: &E)
        ensures
            *r == self.source_view(),
    {
        &self.entropy_source
    }
}

/// Law: output is drawn from a key only while that key stays within the
/// threshold. Whenever the budget covers a request of `n` bytes — exactly
/// the case in which an emission proceeds without reseeding — the bytes
/// emitted on the current key, the request included, do not pass the limit.
pub proof fn lemma_emission_within_threshold<C: CoreGenerator, E: EntropySource>(
    g: ReseedingGenerator<C, E>,
    n: int,
)
    requires
        g.wf(),
        0 <= n,
        !g.needs_reseed(n),
    ensures
        g.emitted() + n <= g.limit(),
{
}

/// Law: the reseed trigger is exactly a threshold crossing. A request of
/// `n` bytes is preceded by a reseed if and only if the bytes already
/// emitted since the last seed event plus the request would pass the limit.
pub proof fn lemma_reseed_trigger_is_threshold<C: CoreGenerator, E: EntropySource>(
    g: ReseedingGenerator<C, E>,
    n: int,
)
    requires
        g.wf(),
    ensures
        g.needs_reseed(n) <==> g.emitted() + n > g.limit(),
{
}

} // verus!
