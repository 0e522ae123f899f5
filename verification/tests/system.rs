//! The operating-system entropy source, exercised for real.
use reseeding_rng::mock::StepCore;
use reseeding_rng::reseeding::ReseedingGenerator;
use reseeding_rng::system::SystemEntropy;
use reseeding_rng::traits::EntropySource;
use reseeding_rng::RESEED_THRESHOLD;

#[test]
fn system_entropy_seeds_a_generator() {
    let r = ReseedingGenerator::<StepCore, SystemEntropy>::from_entropy(
        RESEED_THRESHOLD,
        SystemEntropy::new(),
    );
    let mut g = match r {
        Ok(g) => g,
        Err(_) => panic!("the system entropy source should be available"),
    };
    let mut buf = vec![0u8; 32];
    assert!(g.try_fill_bytes(&mut buf).is_ok());
    assert_eq!(buf.len(), 32);
}

#[test]
fn system_entropy_overwrites_the_buffer() {
    // A draw that handed the zeroed buffer back unchanged, twice, would be
    // indistinguishable from a broken source; with real entropy the chance
    // of 256 zero bits is negligible.
    let mut s = SystemEntropy::new();
    let mut first = vec![0u8; 32];
    let mut second = vec![0u8; 32];
    assert!(s.fill(&mut first).is_ok());
    assert!(s.fill(&mut second).is_ok());
    assert_ne!(first, vec![0u8; 32]);
    assert_ne!(first, second);
}
