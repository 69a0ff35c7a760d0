use record_sort::util::RandomNumberGenerator;

#[test]
fn generator_produces_the_requested_count() {
    let mut generator = RandomNumberGenerator::new(9);

    assert_eq!(generator.generate(0).len(), 0);
    assert_eq!(generator.generate(5).len(), 5);
    assert_eq!(generator.generate(128).len(), 128);
}

#[test]
fn generator_is_deterministic_for_a_seed() {
    let mut first = RandomNumberGenerator::new(1234);
    let mut second = RandomNumberGenerator::new(1234);

    assert_eq!(first.generate(32), second.generate(32));
}

#[test]
fn generator_steps_follow_the_congruence() {
    let mut generator = RandomNumberGenerator::new(0);

    let first = generator.next_value();
    let second = generator.next_value();

    assert_eq!(first, 1442695040888963407u64);
    assert_eq!(
        second,
        1442695040888963407u64
            .wrapping_mul(6364136223846793005)
            .wrapping_add(1442695040888963407)
    );
}
