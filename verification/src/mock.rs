//! Deterministic collaborators for instrumentation and reproducibility.
//!
//! Real deployments plug an operating-system entropy source and a stream
//! cipher into the reseeding machine. The types here replace both with
//! small, fully verified stand-ins whose output is a stated function of
//! their state, so that reseed timing, failure handling and byte-for-byte
//! reproducibility can be observed and checked exactly.
use vstd::prelude::*;
use crate::error::EntropyError;
use crate::traits::{CoreGenerator, EntropySource, POS_CAP};

verus! {

/// Copy of a byte vector, element for element.
fn copy_bytes(src: &Vec<u8>) -> (out: Vec<u8>)
    ensures
        out@ == src@,
{
    let n = src.len();
    let mut out: Vec<u8> = Vec::new();
    let mut i: usize = 0;
    while i < n
        invariant
            i <= n,
            n == src@.len(),
            out@.len() == i as int,
            forall |j: int| 0 <= j < i ==> out@[j] == src@[j],
        decreases n - i,
    {
        out.push(src[i]);
        i = i + 1;
    }
    proof {
        assert(out@ =~= src@);
    }
    out
}

/// A deterministic core generator whose stream is an arithmetic pattern of
/// its key: byte `i` of the stream under key `k` is `(k[i mod |k|] + i) mod
/// 256`. Deliberately not a cipher — it exists so that every emitted byte
/// can be predicted and checked.
pub struct StepCore {
    key: Vec<u8>,
    pos: u128,
}

impl StepCore {
    /// The stream byte at absolute position `i`, computed at runtime.
    fn compute_byte(key: &Vec<u8>, i: u128) -> (b: u8)
        requires
            i < POS_CAP,
        ensures
            b == <StepCore as CoreGenerator>::stream_byte(key@, i as int),
    {
        if key.len() == 0 {
            0
        } else {
            let idx: usize = (i % (key.len() as u128)) as usize;
            let kb: u8 = key[idx];
            (((kb as u128) + i) % 256) as u8
        }
    }
}

impl CoreGenerator for StepCore {
    closed spec fn key(&self) -> Seq<u8> {
        self.key@
    }

    closed spec fn pos(&self) -> int {
        self.pos as int
    }

    open spec fn stream_byte(key: Seq<u8>, i: int) -> u8 {
        if key.len() == 0 || i < 0 {
            0
        } else {
            (((key[i % (key.len() as int)] as int) + i) % 256) as u8
        }
    }

    open spec fn seed_len() -> int {
        16
    }

    fn seed_size() -> (n: usize) {
        16
    }

    fn from_seed(seed: &Vec<u8>) -> (r: Self) {
        StepCore { key: copy_bytes(seed), pos: 0 }
    }

    fn reseed(&mut self, seed: &Vec<u8>) {
        self.key = copy_bytes(seed);
        self.pos = 0;
    }

    fn fill_bytes(&mut self, dest: &mut Vec<u8>) {
        let n = dest.len();
        let mut out: Vec<u8> = Vec::new();
        let mut i: usize = 0;
        while i < n
            invariant
                i <= n,
                n == old(dest)@.len(),
                *self == *old(self),
                self.pos as int + n as int <= POS_CAP as int,
                out@.len() == i as int,
                forall |j: int| 0 <= j < i ==>
                    out@[j] == <StepCore as CoreGenerator>::stream_byte(self.key@, self.pos as int + j),
            decreases n - i,
        {
            let b = StepCore::compute_byte(&self.key, self.pos + (i as u128));
            out.push(b);
            i = i + 1;
        }
        *dest = out;
        self.pos = self.pos + (n as u128);
    }
}

/// An entropy source that never fails and answers every draw with a run of
/// identical bytes, advancing the byte by one (wrapping at 256) after each
/// draw. The byte thus acts as a visible count of the seed events a
/// generator has gone through.
pub struct CountingEntropy {
    next_stamp: u8,
    draws: Ghost<int>,
}

impl CountingEntropy {
    /// The byte the next successful draw will be filled with.
    pub closed spec fn stamp(&self) -> u8 {
        self.next_stamp
    }

    /// A source whose first draw yields a run of `stamp` bytes.
    pub fn new(stamp: u8) -> (r: Self)
        ensures
            r.stamp() == stamp,
            r.fills() == 0,
            r.never_fails(),
    {
        CountingEntropy { next_stamp: stamp, draws: Ghost(0) }
    }

    /// The stamp as a runtime value.
    pub fn current_stamp(&self) -> (s: u8)
        ensures
            s == self.stamp(),
    {
        self.next_stamp
    }
}

impl EntropySource for CountingEntropy {
    closed spec fn fills(&self) -> int {
        self.draws@
    }

    open spec fn never_fails(&self) -> bool {
        true
    }

    open spec fn deterministic() -> bool {
        true
    }

    open spec fn planned(&self, len: int) -> Seq<u8> {
        Seq::new(len as nat, |i: int| self.stamp())
    }

    open spec fn next_draw_succeeds(&self) -> bool {
        true
    }

    closed spec fn after_draw(&self) -> Self {
        CountingEntropy {
            next_stamp: if self.next_stamp == 255 { 0u8 } else { (self.next_stamp + 1) as u8 },
            draws: Ghost(self.draws@ + 1),
        }
    }

    fn fill(&mut self, dest: &mut Vec<u8>) -> (r: Result<(), EntropyError>)
        ensures
            final(dest)@ == Seq::new(old(dest)@.len(), |i: int| old(self).stamp()),
            final(self).stamp() == (if old(self).stamp() == 255 { 0u8 } else {
                (old(self).stamp() + 1) as u8
            }),
    {
        let n = dest.len();
        let mut out: Vec<u8> = Vec::new();
        let mut i: usize = 0;
        while i < n
            invariant
                i <= n,
                n as int == old(dest)@.len(),
                *self == *old(self),
                out@.len() == i as int,
                forall |j: int| 0 <= j < i ==> out@[j] == old(self).stamp(),
            decreases n - i,
        {
            out.push(self.next_stamp);
            i = i + 1;
        }
        *dest = out;
        self.next_stamp = if self.next_stamp == 255 { 0 } else { self.next_stamp + 1 };
        self.draws = Ghost(self.draws@ + 1);
        proof {
            assert(dest@ =~= Seq::new(old(dest)@.len(), |i: int| old(self).stamp()));
            assert(dest@ =~= old(self).planned(old(dest)@.len() as int));
            assert(*self == old(self).after_draw());
        }
        Ok(())
    }
}

/// An entropy source with a budget of successful draws; once the budget is
/// spent, every further draw fails. Successful draws behave like
/// [`CountingEntropy`].
pub struct FailingEntropy {
    successes_left: u64,
    next_stamp: u8,
    draws: Ghost<int>,
}

impl FailingEntropy {
    /// How many draws will still succeed.
    pub closed spec fn remaining(&self) -> int {
        self.successes_left as int
    }

    /// The byte the next successful draw will be filled with.
    pub closed spec fn stamp(&self) -> u8 {
        self.next_stamp
    }

    /// A source that answers `successes` draws (stamped from `stamp` on)
    /// and fails from then on.
    pub fn new(successes: u64, stamp: u8) -> (r: Self)
        ensures
            r.remaining() == successes,
            r.fills() == 0,
    {
        FailingEntropy { successes_left: successes, next_stamp: stamp, draws: Ghost(0) }
    }
}

impl EntropySource for FailingEntropy {
    closed spec fn fills(&self) -> int {
        self.draws@
    }

    open spec fn never_fails(&self) -> bool {
        false
    }

    open spec fn deterministic() -> bool {
        true
    }

    open spec fn planned(&self, len: int) -> Seq<u8> {
        Seq::new(len as nat, |i: int| self.stamp())
    }

    open spec fn next_draw_succeeds(&self) -> bool {
        self.remaining() > 0
    }

    closed spec fn after_draw(&self) -> Self {
        FailingEntropy {
            successes_left: (self.successes_left - 1) as u64,
            next_stamp: if self.next_stamp == 255 { 0u8 } else { (self.next_stamp + 1) as u8 },
            draws: Ghost(self.draws@ + 1),
        }
    }

    fn fill(&mut self, dest: &mut Vec<u8>) -> (r: Result<(), EntropyError>)
        ensures
            r is Ok <==> old(self).remaining() > 0,
            r is Ok ==> final(self).remaining() == old(self).remaining() - 1,
            r is Err ==> final(self).remaining() == old(self).remaining(),
            r is Ok ==> final(dest)@ == Seq::new(old(dest)@.len(), |i: int| old(self).stamp()),
            r is Ok ==> final(self).stamp() == (if old(self).stamp() == 255 { 0u8 } else {
                (old(self).stamp() + 1) as u8
            }),
            r is Err ==> *final(self) == *old(self) && final(dest)@ == old(dest)@,
    {
        if self.successes_left == 0 {
            return Err(EntropyError {});
        }
        self.successes_left = self.successes_left - 1;
        let n = dest.len();
        let mut out: Vec<u8> = Vec::new();
        let mut i: usize = 0;
        while i < n
            invariant
                i <= n,
                n as int == old(dest)@.len(),
                self.next_stamp == old(self).stamp(),
                self.draws == old(self).draws,
                self.successes_left as int == old(self).remaining() - 1,
                out@.len() == i as int,
                forall |j: int| 0 <= j < i ==> out@[j] == old(self).stamp(),
            decreases n - i,
        {
            out.push(self.next_stamp);
            i = i + 1;
        }
        *dest = out;
        self.next_stamp = if self.next_stamp == 255 { 0 } else { self.next_stamp + 1 };
        self.draws = Ghost(self.draws@ + 1);
        proof {
            assert(dest@ =~= Seq::new(old(dest)@.len(), |i: int| old(self).stamp()));
            assert(dest@ =~= old(self).planned(old(dest)@.len() as int));
            assert(*self == old(self).after_draw());
        }
        Ok(())
    }
}

/// What one successful draw does to a counting source, over its public
/// model: the stamp advances by one (wrapping at 256), the draw count by
/// one, and the source still never fails.
pub proof fn lemma_counting_after_draw(e: CountingEntropy)
    ensures
        e.after_draw().stamp() == (if e.stamp() == 255 { 0u8 } else { (e.stamp() + 1) as u8 }),
        e.after_draw().fills() == e.fills() + 1,
        e.after_draw().never_fails(),
{
}

/// What one successful draw does to a source with a budget of successes,
/// over its public model: one success is used up, the stamp advances by
/// one (wrapping at 256), and the draw count by one.
pub proof fn lemma_failing_after_draw(e: FailingEntropy)
    requires
        e.remaining() > 0,
    ensures
        e.after_draw().remaining() == e.remaining() - 1,
        e.after_draw().stamp() == (if e.stamp() == 255 { 0u8 } else { (e.stamp() + 1) as u8 }),
        e.after_draw().fills() == e.fills() + 1,
{
}

} // verus!
