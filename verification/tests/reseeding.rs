//! Behavior of the reseeding machine, observed through the deterministic
//! doubles: reseed timing, failure handling, reproducibility, independence.
use reseeding_rng::error::{EntropyError, Error};
use reseeding_rng::mock::{CountingEntropy, FailingEntropy, StepCore};
use reseeding_rng::reseeding::ReseedingGenerator;
use reseeding_rng::traits::{CoreGenerator, EntropySource};

/// The stream bytes a `StepCore` keyed with a run of `stamp` bytes emits:
/// byte `i` is `(stamp + i) mod 256`, because every key byte is `stamp`.
fn expected_stream(stamp: u8, start: usize, len: usize) -> Vec<u8> {
    let mut out = Vec::new();
    let mut i = start;
    while i < start + len {
        out.push(((stamp as usize + i) % 256) as u8);
        i += 1;
    }
    out
}

fn counting_generator(
    threshold: u64,
    stamp: u8,
) -> ReseedingGenerator<StepCore, CountingEntropy> {
    match ReseedingGenerator::from_entropy(threshold, CountingEntropy::new(stamp)) {
        Ok(g) => g,
        Err(_) => panic!("a counting source never fails"),
    }
}

#[test]
fn seed_size_is_fixed() {
    assert_eq!(StepCore::seed_size(), 16);
}

#[test]
fn fresh_generator_continues_one_stream() {
    let mut g = counting_generator(1024, 50);
    let mut a = vec![0u8; 12];
    assert!(g.try_fill_bytes(&mut a).is_ok());
    let mut b = vec![0u8; 8];
    assert!(g.try_fill_bytes(&mut b).is_ok());
    // One key serves both requests: the second continues where the first
    // stopped.
    assert_eq!(a, expected_stream(50, 0, 12));
    assert_eq!(b, expected_stream(50, 12, 8));
    assert_eq!(g.budget_left(), 1024 - 20);
}

#[test]
fn reseed_happens_exactly_at_threshold_crossing() {
    // Threshold 16: emit 10 bytes, then request 10 more. The second request
    // does not fit the remaining budget, so it must be preceded by exactly
    // one reseed, for exactly 2 seed events in the whole scenario.
    let mut g = counting_generator(16, 100);
    assert_eq!(g.entropy_ref().current_stamp(), 101); // initial seed drawn

    let mut first = vec![0u8; 10];
    assert!(g.try_fill_bytes(&mut first).is_ok());
    assert_eq!(first, expected_stream(100, 0, 10));
    assert_eq!(g.budget_left(), 6);
    assert_eq!(g.entropy_ref().current_stamp(), 101); // no reseed yet

    let mut second = vec![0u8; 10];
    assert!(g.try_fill_bytes(&mut second).is_ok());
    // The fresh key is a run of 101s and the stream restarts at zero.
    assert_eq!(second, expected_stream(101, 0, 10));
    assert_eq!(g.budget_left(), 6);
    // Initial seed plus one reseed: the stamp moved twice in total.
    assert_eq!(g.entropy_ref().current_stamp(), 102);
}

#[test]
fn request_filling_the_whole_budget_needs_no_reseed() {
    let mut g = counting_generator(16, 30);
    let mut buf = vec![0u8; 16];
    assert!(g.try_fill_bytes(&mut buf).is_ok());
    assert_eq!(buf, expected_stream(30, 0, 16));
    assert_eq!(g.budget_left(), 0);
    assert_eq!(g.entropy_ref().current_stamp(), 31); // still only the initial seed
    // The budget is spent: even a single further byte forces a reseed.
    let mut one = vec![0u8; 1];
    assert!(g.try_fill_bytes(&mut one).is_ok());
    assert_eq!(one, expected_stream(31, 0, 1));
    assert_eq!(g.entropy_ref().current_stamp(), 32);
}

#[test]
fn oversized_request_reseeds_once_and_overdraws() {
    // A single request larger than the whole threshold still gets exactly
    // one fresh key; the budget records the overdraft.
    let mut g = counting_generator(16, 60);
    let mut buf = vec![0u8; 10];
    assert!(g.try_fill_bytes(&mut buf).is_ok());
    let mut big = vec![0u8; 20];
    assert!(g.try_fill_bytes(&mut big).is_ok());
    assert_eq!(big, expected_stream(61, 0, 20));
    assert_eq!(g.budget_left(), -4);
    assert_eq!(g.entropy_ref().current_stamp(), 62);
    // The next request of any size must reseed again.
    let mut one = vec![0u8; 1];
    assert!(g.try_fill_bytes(&mut one).is_ok());
    assert_eq!(one, expected_stream(62, 0, 1));
}

#[test]
fn words_are_little_endian_and_count_against_budget() {
    let mut g = counting_generator(1024, 100);
    let w32 = match g.try_next_u32() {
        Ok(w) => w,
        Err(_) => panic!("counting source cannot fail"),
    };
    // Stream bytes 100, 101, 102, 103 assembled little-endian.
    assert_eq!(w32, u32::from_le_bytes([100, 101, 102, 103]));
    assert_eq!(w32, 1734763876);
    assert_eq!(g.budget_left(), 1020);

    let w64 = match g.try_next_u64() {
        Ok(w) => w,
        Err(_) => panic!("counting source cannot fail"),
    };
    // The word continues the same stream at position 4.
    assert_eq!(w64, u64::from_le_bytes([104, 105, 106, 107, 108, 109, 110, 111]));
    assert_eq!(g.budget_left(), 1012);
}

#[test]
fn infallible_calls_match_fallible_calls() {
    let mut a = counting_generator(64, 9);
    let mut b = counting_generator(64, 9);
    let mut buf_a = vec![0u8; 24];
    a.fill_bytes(&mut buf_a);
    let mut buf_b = vec![0u8; 24];
    assert!(b.try_fill_bytes(&mut buf_b).is_ok());
    assert_eq!(buf_a, buf_b);
    assert_eq!(a.next_u32(), match b.try_next_u32() {
        Ok(w) => w,
        Err(_) => panic!("counting source cannot fail"),
    });
    assert_eq!(a.next_u64(), match b.try_next_u64() {
        Ok(w) => w,
        Err(_) => panic!("counting source cannot fail"),
    });
}

#[test]
fn stream_bytes_wrap_modulo_256() {
    let mut g = counting_generator(1024, 250);
    let mut buf = vec![0u8; 10];
    assert!(g.try_fill_bytes(&mut buf).is_ok());
    // 250, 251, ..., 255, 0, 1, 2, 3.
    assert_eq!(buf, vec![250, 251, 252, 253, 254, 255, 0, 1, 2, 3]);
}

#[test]
fn counting_stamp_wraps_at_256() {
    let mut g = counting_generator(8, 255);
    // Initial key is a run of 255s; the next seed event wraps the stamp to 0.
    let mut buf = vec![0u8; 9];
    assert!(g.try_fill_bytes(&mut buf).is_ok());
    assert_eq!(buf, expected_stream(0, 0, 9));
    assert_eq!(g.entropy_ref().current_stamp(), 1);
}

#[test]
fn interleaved_callers_see_one_underlying_state() {
    // Two accessors of the same generator are nothing but the same state:
    // an interleaving of calls through both yields the very sequence a
    // single caller would draw with the same calls in the same order.
    let mut shared = counting_generator(1024, 77);
    let mut single = counting_generator(1024, 77);

    // "First accessor" draws 3 bytes, "second accessor" draws 4, first
    // draws 2 — all against `shared`.
    let mut h1_a = vec![0u8; 3];
    assert!(shared.try_fill_bytes(&mut h1_a).is_ok());
    let mut h2_a = vec![0u8; 4];
    assert!(shared.try_fill_bytes(&mut h2_a).is_ok());
    let mut h1_b = vec![0u8; 2];
    assert!(shared.try_fill_bytes(&mut h1_b).is_ok());

    // One caller, same interleaved order.
    let mut s_a = vec![0u8; 3];
    assert!(single.try_fill_bytes(&mut s_a).is_ok());
    let mut s_b = vec![0u8; 4];
    assert!(single.try_fill_bytes(&mut s_b).is_ok());
    let mut s_c = vec![0u8; 2];
    assert!(single.try_fill_bytes(&mut s_c).is_ok());

    assert_eq!(h1_a, s_a);
    assert_eq!(h2_a, s_b);
    assert_eq!(h1_b, s_c);
    // And the whole interleaving is one contiguous stream of one key.
    let mut all = h1_a;
    all.extend(h2_a);
    all.extend(h1_b);
    assert_eq!(all, expected_stream(77, 0, 9));
}

#[test]
fn independent_generators_do_not_observe_each_other() {
    // A generator under heavy reseeding next to an undisturbed one: the
    // interleaving leaves the second exactly as an isolated run would.
    let mut busy = counting_generator(4, 10);
    let mut calm = counting_generator(1000, 10);
    let mut isolated = counting_generator(1000, 10);

    let mut calm_out = Vec::new();
    let mut isolated_out = Vec::new();
    for _ in 0..6 {
        let mut b = vec![0u8; 6]; // forces a reseed of `busy` every call
        assert!(busy.try_fill_bytes(&mut b).is_ok());
        let mut c = vec![0u8; 6];
        assert!(calm.try_fill_bytes(&mut c).is_ok());
        calm_out.extend(c);
        let mut i = vec![0u8; 6];
        assert!(isolated.try_fill_bytes(&mut i).is_ok());
        isolated_out.extend(i);
    }
    assert_eq!(calm_out, isolated_out);
    // `busy` reseeded six times on top of its initial seed; `calm` never.
    assert_eq!(busy.entropy_ref().current_stamp(), 17);
    assert_eq!(calm.entropy_ref().current_stamp(), 11);
}

#[test]
fn identical_sources_reproduce_byte_for_byte() {
    // Deterministic core plus identically seeded deterministic entropy:
    // the whole output is reproducible against a reference vector.
    let mut a = counting_generator(32, 50);
    let mut b = counting_generator(32, 50);
    let mut out_a = vec![0u8; 20];
    let mut out_b = vec![0u8; 20];
    assert!(a.try_fill_bytes(&mut out_a).is_ok());
    assert!(b.try_fill_bytes(&mut out_b).is_ok());
    assert_eq!(out_a, out_b);
    let reference = vec![
        50, 51, 52, 53, 54, 55, 56, 57, 58, 59, 60, 61, 62, 63, 64, 65, 66, 67, 68, 69,
    ];
    assert_eq!(out_a, reference);
    assert_eq!(a.next_u32(), b.next_u32());
}

#[test]
fn failed_initial_seed_is_entropy_unavailable() {
    let dead = FailingEntropy::new(0, 7);
    let r = ReseedingGenerator::<StepCore, FailingEntropy>::from_entropy(64, dead);
    match r {
        Ok(_) => panic!("seeding must fail when the source has no draws left"),
        Err(e) => assert_eq!(e, Error::EntropyUnavailable(EntropyError {})),
    }
}

#[test]
fn failed_reseed_is_typed_and_leaves_no_partial_output() {
    // The source answers exactly one draw: the initial seed. The first
    // request that forces a reseed gets the typed failure, on exactly that
    // call, and the destination keeps its previous contents untouched.
    let one_shot = FailingEntropy::new(1, 7);
    let mut g = match ReseedingGenerator::<StepCore, FailingEntropy>::from_entropy(8, one_shot) {
        Ok(g) => g,
        Err(_) => panic!("the single allowed draw covers the initial seed"),
    };

    let mut first = vec![0u8; 6];
    assert_eq!(g.try_fill_bytes(&mut first), Ok(()));
    assert_eq!(first, expected_stream(7, 0, 6));
    assert_eq!(g.budget_left(), 2);

    let mut second = vec![9u8; 6];
    assert_eq!(g.try_fill_bytes(&mut second), Err(Error::ReseedFailed(EntropyError {})));
    assert_eq!(second, vec![9u8; 6]); // untouched, no partial output
    assert_eq!(g.budget_left(), 2); // budget untouched

    // The old key is still whole: a request that fits the budget continues
    // its stream where it stopped, showing no half-performed reseed.
    let mut tail = vec![0u8; 2];
    assert_eq!(g.try_fill_bytes(&mut tail), Ok(()));
    assert_eq!(tail, expected_stream(7, 6, 2));

    // And every later crossing still reports the failure.
    let mut again = vec![0u8; 4];
    assert_eq!(g.try_fill_bytes(&mut again), Err(Error::ReseedFailed(EntropyError {})));
}

#[test]
fn error_messages_name_entropy_exhaustion() {
    let seed_failure = Error::EntropyUnavailable(EntropyError {});
    let reseed_failure = Error::ReseedFailed(EntropyError {});
    assert_eq!(seed_failure.message(), "entropy source unavailable during initial seeding");
    assert_eq!(reseed_failure.message(), "entropy source unavailable during reseed");
    assert_ne!(seed_failure, reseed_failure);
}

#[test]
fn entropy_doubles_draw_as_contracted() {
    // A counting source writes a run of its stamp and advances the stamp.
    let mut counting = CountingEntropy::new(41);
    let mut buf = vec![0u8; 5];
    assert!(counting.fill(&mut buf).is_ok());
    assert_eq!(buf, vec![41u8; 5]);
    assert_eq!(counting.current_stamp(), 42);

    // A failing source with a budget of one: the first draw succeeds like a
    // counting one, the second fails and leaves the buffer untouched.
    let mut flaky = FailingEntropy::new(1, 90);
    let mut first = vec![0u8; 4];
    assert_eq!(flaky.fill(&mut first), Ok(()));
    assert_eq!(first, vec![90u8; 4]);
    let mut second = vec![3u8; 4];
    assert_eq!(flaky.fill(&mut second), Err(EntropyError {}));
    assert_eq!(second, vec![3u8; 4]);
}

#[test]
fn threshold_is_recorded() {
    let g = counting_generator(512, 1);
    assert_eq!(g.threshold_value(), 512);
}
