use lottery_core::draw::verification_hash_for;
use lottery_core::state::State;

use rand::rngs::StdRng;
use rand::Rng;
use rand::SeedableRng;
use sha2::{Digest, Sha256};

/// The state of the scenario: price 10, entropy seed 42, alice creates,
/// alice and bob join, alice holds 3 tickets and bob 1.
fn scenario() -> (State, String) {
    let mut s = State::new();
    let id = s
        .create_new_lottery("Entertainment".to_string(), 10, 42, "alice".to_string())
        .unwrap();
    s.participant_joins(id.clone(), "alice".to_string()).unwrap();
    s.buy_tickets(&id, &"alice".to_string(), 3).unwrap();
    s.participant_joins(id.clone(), "bob".to_string()).unwrap();
    s.buy_tickets(&id, &"bob".to_string(), 1).unwrap();
    s.start_commitment_phase(&id, &"alice".to_string()).unwrap();
    s.end_commitment_phase(&id, &"alice".to_string()).unwrap();
    (s, id)
}

fn sha256_hex_direct(text: &str) -> String {
    let mut hasher = Sha256::new();
    hasher.update(text.as_bytes());
    format!("{:x}", hasher.finalize())
}

#[test]
fn scenario_draw_is_deterministic_and_verifiable() {
    let (mut s, id) = scenario();
    let idx = s.generate_and_set_winner(&id).unwrap();
    assert!(idx == 0 || idx == 1);
    let winner = s.get_winner(&id).unwrap();
    let expected_winner = if idx == 0 { "alice" } else { "bob" };
    assert_eq!(winner, expected_winner);
    // the published hash re-hashes correctly from the announced outcome
    let stored = s.get_verification_hash(&id).unwrap();
    let text = format!("{}-{}-{}", id, winner, idx);
    assert_eq!(stored, sha256_hex_direct(&text));
    assert_eq!(stored, verification_hash_for(&id, &winner, idx));
    // the same seed and the same ledger give the very same outcome
    let (mut s2, id2) = scenario();
    let idx2 = s2.generate_and_set_winner(&id2).unwrap();
    assert_eq!(idx, idx2);
    assert_eq!(s2.get_winner(&id2), Some(winner));
    assert_eq!(s2.get_verification_hash(&id2), Some(stored));
}

#[test]
fn draw_matches_an_independent_generator_run() {
    let (mut s, id) = scenario();
    let idx = s.generate_and_set_winner(&id).unwrap();
    // the lottery's draw seed is the entropy seed XOR the creator's length
    let mut rng = StdRng::seed_from_u64(42 ^ ("alice".len() as u64));
    let n1: u64 = rng.gen_range(0..u64::MAX);
    let n2: u64 = rng.gen_range(0..u64::MAX);
    assert_eq!(idx, n2 % 2);
    let lottery = &s.lotteries.iter().find(|row| row.0 == id).unwrap().1;
    assert_eq!(lottery.generated_numbers, vec![n1, n2]);
    assert_eq!(lottery.rng_seed, n2);
    assert_eq!(lottery.winning_number, Some(idx));
}

#[test]
fn winning_index_stays_below_the_eligible_count() {
    for seed in [0u64, 1, 7, 42, 1000, u64::MAX] {
        let mut s = State::new();
        let id = s
            .create_new_lottery("Entertainment".to_string(), 1, seed, "creator".to_string())
            .unwrap();
        for name in ["a", "b", "c"] {
            s.participant_joins(id.clone(), name.to_string()).unwrap();
            s.buy_tickets(&id, &name.to_string(), 1).unwrap();
        }
        let idx = s.generate_and_set_winner(&id).unwrap();
        assert!(idx < 3);
    }
}

#[test]
fn redrawing_chains_the_seed_and_overwrites_the_outcome() {
    let (mut s, id) = scenario();
    let first = s.generate_and_set_winner(&id).unwrap();
    let seed_after_first = s.lotteries.iter().find(|row| row.0 == id).unwrap().1.rng_seed;
    let second = s.generate_and_set_winner(&id).unwrap();
    // the second draw starts from the first draw's last number
    let mut rng = StdRng::seed_from_u64(seed_after_first);
    let m1: u64 = rng.gen_range(0..u64::MAX);
    let m2: u64 = rng.gen_range(0..u64::MAX);
    assert_eq!(second, m2 % 2);
    let lottery = &s.lotteries.iter().find(|row| row.0 == id).unwrap().1;
    assert_eq!(lottery.generated_numbers.len(), 4);
    assert_eq!(lottery.generated_numbers[2], m1);
    assert_eq!(lottery.generated_numbers[3], m2);
    assert_eq!(lottery.winning_number, Some(second));
    // the stored outcome is the second draw's, re-hashing correctly
    let winner = s.get_winner(&id).unwrap();
    let expected_winner = if second == 0 { "alice" } else { "bob" };
    assert_eq!(winner, expected_winner);
    let stored = s.get_verification_hash(&id).unwrap();
    assert_eq!(stored, verification_hash_for(&id, &winner, second));
    let _ = first;
}

#[test]
fn eligibility_follows_the_ledger_order_at_draw_time() {
    let mut s = State::new();
    let id = s
        .create_new_lottery("Entertainment".to_string(), 1, 9, "mod".to_string())
        .unwrap();
    // carol joins first but never buys a ticket: she is not eligible
    s.participant_joins(id.clone(), "carol".to_string()).unwrap();
    s.participant_joins(id.clone(), "dave".to_string()).unwrap();
    s.buy_tickets(&id, &"dave".to_string(), 5).unwrap();
    let idx = s.generate_and_set_winner(&id).unwrap();
    assert_eq!(idx, 0);
    assert_eq!(s.get_winner(&id), Some("dave".to_string()));
}

#[test]
fn verification_hash_is_a_real_digest() {
    // a fixed, externally checkable SHA-256 value
    let h = verification_hash_for(&"lottery_alice_42".to_string(), &"bob".to_string(), 1);
    assert_eq!(h, sha256_hex_direct("lottery_alice_42-bob-1"));
    assert_eq!(h.len(), 64);
    assert_ne!(h, sha256_hex_direct("lottery_alice_42-bob-0"));
}
