use appconfiguration::rollout::{hash, should_rollout};

fn id_of(seed: &mut u64) -> String {
    *seed = seed.wrapping_mul(6364136223846793005).wrapping_add(1442695040888963407);
    format!("entity-{:016x}", *seed)
}

#[test]
fn hash_of_known_inputs() {
    assert_eq!(hash(b"", 0), 0);
    assert_eq!(hash(b"", 1), 0x514e_28b7);
    assert_eq!(hash(b"", 0xffff_ffff), 0x81f1_6f39);
    assert_eq!(hash(b"\0\0\0\0", 0), 0x2362_f9de);
    assert_eq!(hash(b"a", 0x9747_b28c), 0x7fa0_9ea6);
    assert_eq!(hash(b"aa", 0x9747_b28c), 0x5d21_1726);
    assert_eq!(hash(b"aaa", 0x9747_b28c), 0x283e_0130);
    assert_eq!(hash(b"aaaa", 0x9747_b28c), 0x5a97_808a);
    assert_eq!(hash(b"abc", 0), 0xb3dd_93fa);
    assert_eq!(hash(b"hello", 0), 0x248b_fa47);
    assert_eq!(hash(b"Hello, world!", 0x9747_b28c), 0x2488_4cba);
    assert_eq!(hash(b"The quick brown fox jumps over the lazy dog", 0), 0x2e4f_f723);
    assert_eq!(hash(b"The quick brown fox jumps over the lazy dog", 0x9747_b28c), 0x2fa8_26cd);
}

#[test]
fn the_gate_places_an_entity_by_the_hash_of_both_ids() {
    // hash("user1:f1") / 2^32 * 100 < percentage
    let h = hash(b"user1:f1", 0) as u128;
    for percentage in 0..=100u64 {
        let expected = h * 100 < (percentage as u128) << 32;
        assert_eq!(should_rollout(percentage, "user1", "f1"), expected, "{percentage}");
    }
}

#[test]
fn nobody_is_in_at_zero_and_everybody_from_hundred_on() {
    let mut seed = 1;
    for _ in 0..1000 {
        let id = id_of(&mut seed);
        assert!(!should_rollout(0, &id, "f1"));
        assert!(should_rollout(100, &id, "f1"));
        assert!(should_rollout(101, &id, "f1"));
        assert!(should_rollout(u64::MAX, &id, "f1"));
    }
}

#[test]
fn the_gate_decides_the_same_each_time() {
    let mut seed = 7;
    for _ in 0..200 {
        let id = id_of(&mut seed);
        let first = should_rollout(50, &id, "feature");
        for _ in 0..5 {
            assert_eq!(should_rollout(50, &id, "feature"), first);
        }
    }
}

#[test]
fn the_gate_lets_in_about_the_percentage() {
    for percentage in [1u64, 10, 25, 50, 75, 90, 99] {
        let mut seed = percentage;
        let mut within = 0u64;
        for _ in 0..10_000 {
            if should_rollout(percentage, &id_of(&mut seed), "feature") {
                within += 1;
            }
        }
        let share = within as f64 / 100.0;
        assert!((share - percentage as f64).abs() <= 2.0, "{percentage}: {share}");
    }
}

#[test]
fn a_larger_percentage_lets_in_whoever_was_in() {
    let mut seed = 3;
    for _ in 0..200 {
        let id = id_of(&mut seed);
        let mut within = false;
        for percentage in 0..=100u64 {
            let now = should_rollout(percentage, &id, "f");
            assert!(now || !within);
            within = now;
        }
    }
}
