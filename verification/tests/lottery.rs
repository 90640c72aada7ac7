use lottery_core::errors::LotteryError;
use lottery_core::state::State;
use lottery_core::types::LotteryPurpose;

fn created(state: &mut State, price: u64, seed: u64, creator: &str) -> String {
    state
        .create_new_lottery("Entertainment".to_string(), price, seed, creator.to_string())
        .expect("fresh id must be accepted")
}

#[test]
fn create_derives_id_and_moderator() {
    let mut s = State::new();
    let id = created(&mut s, 10, 42, "alice");
    assert_eq!(id, "lottery_alice_42");
    assert_eq!(s.get_lottery_moderator(&id), Some("alice".to_string()));
    let all = s.get_all_lottery_moderators();
    assert_eq!(all, vec![(id.clone(), Some("alice".to_string()))]);
    assert!(!s.get_commitment_phase(&id));
}

#[test]
fn create_duplicate_id_fails() {
    let mut s = State::new();
    let _ = created(&mut s, 10, 42, "alice");
    let again = s.create_new_lottery("Fundraiser".to_string(), 5, 42, "alice".to_string());
    assert_eq!(again, Err(LotteryError::DuplicateId));
    assert_eq!(s.get_all_lotteries().len(), 1);
}

#[test]
fn create_parses_purpose_labels() {
    let mut s = State::new();
    let _ = created(&mut s, 1, 1, "a");
    s.create_new_lottery("Fundraiser".to_string(), 1, 2, "a".to_string()).unwrap();
    s.create_new_lottery("DAOTreasury".to_string(), 1, 3, "a".to_string()).unwrap();
    s.create_new_lottery("charity raffle".to_string(), 1, 4, "a".to_string()).unwrap();
    let infos = s.get_all_lotteries();
    assert_eq!(infos.len(), 4);
    assert!(matches!(infos[0].1.purpose, LotteryPurpose::Entertainment));
    assert!(matches!(infos[1].1.purpose, LotteryPurpose::Fundraiser));
    assert!(matches!(infos[2].1.purpose, LotteryPurpose::DAOTreasury));
    match &infos[3].1.purpose {
        LotteryPurpose::Custom(label) => assert_eq!(label, "charity raffle"),
        _ => panic!("custom label expected"),
    }
}

#[test]
fn join_requires_existing_lottery() {
    let mut s = State::new();
    let r = s.participant_joins("lottery_nobody_1".to_string(), "alice".to_string());
    assert_eq!(r, Err(LotteryError::LotteryNotFound));
}

#[test]
fn join_twice_fails_and_keeps_tickets() {
    let mut s = State::new();
    let id = created(&mut s, 10, 42, "alice");
    assert_eq!(s.participant_joins(id.clone(), "bob".to_string()), Ok(()));
    assert_eq!(s.buy_tickets(&id, &"bob".to_string(), 2), Ok(()));
    let again = s.participant_joins(id.clone(), "bob".to_string());
    assert_eq!(again, Err(LotteryError::AlreadyJoined));
    let rows = s.get_participant_lotteries(&"bob".to_string());
    assert_eq!(rows, vec![(id.clone(), 2)]);
}

#[test]
fn buy_zero_tickets_fails_and_changes_nothing() {
    let mut s = State::new();
    let id = created(&mut s, 10, 42, "alice");
    s.participant_joins(id.clone(), "bob".to_string()).unwrap();
    let r = s.buy_tickets(&id, &"bob".to_string(), 0);
    assert_eq!(r, Err(LotteryError::InvalidQuantity));
    assert_eq!(s.get_participant_lotteries(&"bob".to_string()), vec![(id.clone(), 0)]);
}

#[test]
fn buy_without_joining_fails() {
    let mut s = State::new();
    let id = created(&mut s, 10, 42, "alice");
    let r = s.buy_tickets(&id, &"bob".to_string(), 1);
    assert_eq!(r, Err(LotteryError::NotAJoinedParticipant));
}

#[test]
fn buy_overflow_fails_and_keeps_count() {
    let mut s = State::new();
    let id = created(&mut s, 10, 42, "alice");
    s.participant_joins(id.clone(), "bob".to_string()).unwrap();
    s.buy_tickets(&id, &"bob".to_string(), 2).unwrap();
    let r = s.buy_tickets(&id, &"bob".to_string(), u64::MAX - 1);
    assert_eq!(r, Err(LotteryError::QuantityOverflow));
    assert_eq!(s.get_participant_lotteries(&"bob".to_string()), vec![(id.clone(), 2)]);
    assert_eq!(s.buy_tickets(&id, &"bob".to_string(), u64::MAX - 2), Ok(()));
    assert_eq!(s.get_participant_lotteries(&"bob".to_string()), vec![(id.clone(), u64::MAX)]);
}

#[test]
fn tickets_listing_tracks_joins_in_order() {
    let mut s = State::new();
    let id1 = created(&mut s, 10, 1, "alice");
    let id2 = created(&mut s, 10, 2, "alice");
    s.participant_joins(id1.clone(), "bob".to_string()).unwrap();
    s.participant_joins(id2.clone(), "bob".to_string()).unwrap();
    s.buy_tickets(&id2, &"bob".to_string(), 7).unwrap();
    let rows = s.get_participant_lotteries(&"bob".to_string());
    assert_eq!(rows, vec![(id1.clone(), 0), (id2.clone(), 7)]);
    assert_eq!(s.get_participant_lotteries(&"carol".to_string()), vec![]);
}

#[test]
fn phase_transitions_require_the_moderator() {
    let mut s = State::new();
    let id = created(&mut s, 10, 42, "alice");
    let bob = "bob".to_string();
    let alice = "alice".to_string();
    assert_eq!(s.require_moderator(&id, &alice), Ok(()));
    assert_eq!(s.require_moderator(&id, &bob), Err(LotteryError::NotAuthorized));
    assert_eq!(s.start_commitment_phase(&id, &bob), Err(LotteryError::NotAuthorized));
    assert_eq!(s.end_commitment_phase(&id, &bob), Err(LotteryError::NotAuthorized));
    assert_eq!(s.end_commitment_phase(&id, &alice), Err(LotteryError::PhaseNotOpen));
    assert_eq!(s.start_commitment_phase(&id, &alice), Ok(()));
    assert!(s.get_commitment_phase(&id));
    assert_eq!(s.start_commitment_phase(&id, &alice), Err(LotteryError::PhaseAlreadyOpen));
    assert_eq!(s.end_commitment_phase(&id, &alice), Ok(()));
    assert!(!s.get_commitment_phase(&id));
}

#[test]
fn phase_ops_on_missing_lottery_are_not_authorized() {
    let mut s = State::new();
    let missing = "lottery_nobody_1".to_string();
    let alice = "alice".to_string();
    assert_eq!(s.start_commitment_phase(&missing, &alice), Err(LotteryError::NotAuthorized));
    assert_eq!(s.end_commitment_phase(&missing, &alice), Err(LotteryError::NotAuthorized));
}

#[test]
fn commitment_requires_open_phase_whatever_the_caller() {
    let mut s = State::new();
    let id = created(&mut s, 10, 42, "alice");
    s.participant_joins(id.clone(), "bob".to_string()).unwrap();
    // a joined participant is rejected while the phase is closed
    let r = s.create_commitment(id.clone(), "bob".to_string(), "deadbeef".to_string());
    assert_eq!(r, Err(LotteryError::PhaseNotOpen));
    // so is a stranger, and so is any caller on a missing lottery
    let r = s.create_commitment(id.clone(), "carol".to_string(), "deadbeef".to_string());
    assert_eq!(r, Err(LotteryError::PhaseNotOpen));
    let r = s.create_commitment("lottery_nobody_1".to_string(), "bob".to_string(), "x".to_string());
    assert_eq!(r, Err(LotteryError::PhaseNotOpen));
}

#[test]
fn commitment_is_write_once_and_participants_only() {
    let mut s = State::new();
    let id = created(&mut s, 10, 42, "alice");
    s.participant_joins(id.clone(), "bob".to_string()).unwrap();
    s.start_commitment_phase(&id, &"alice".to_string()).unwrap();
    let r = s.create_commitment(id.clone(), "carol".to_string(), "c1".to_string());
    assert_eq!(r, Err(LotteryError::NotAParticipant));
    assert_eq!(s.create_commitment(id.clone(), "bob".to_string(), "c1".to_string()), Ok(()));
    let r = s.create_commitment(id.clone(), "bob".to_string(), "c2".to_string());
    assert_eq!(r, Err(LotteryError::AlreadyCommitted));
}

#[test]
fn draw_requires_a_lottery_and_a_ticket_holder() {
    let mut s = State::new();
    let missing = "lottery_nobody_1".to_string();
    assert_eq!(s.generate_and_set_winner(&missing), Err(LotteryError::LotteryNotFound));
    let id = created(&mut s, 10, 42, "alice");
    assert_eq!(s.generate_and_set_winner(&id), Err(LotteryError::NoEligibleParticipants));
    // joining alone is not enough: eligibility needs at least one ticket
    s.participant_joins(id.clone(), "bob".to_string()).unwrap();
    assert_eq!(s.generate_and_set_winner(&id), Err(LotteryError::NoEligibleParticipants));
    assert_eq!(s.get_winner(&id), None);
    assert_eq!(s.get_verification_hash(&id), None);
}

#[test]
fn clear_state_empties_every_read() {
    let mut s = State::new();
    s.init("ledger-ref".to_string());
    let id = created(&mut s, 10, 42, "alice");
    s.participant_joins(id.clone(), "bob".to_string()).unwrap();
    s.buy_tickets(&id, &"bob".to_string(), 3).unwrap();
    s.start_commitment_phase(&id, &"alice".to_string()).unwrap();
    s.create_commitment(id.clone(), "bob".to_string(), "c".to_string()).unwrap();
    s.generate_and_set_winner(&id).unwrap();
    s.clear_state();
    assert!(s.get_all_lotteries().is_empty());
    assert!(s.get_all_lottery_moderators().is_empty());
    assert!(s.get_participant_lotteries(&"bob".to_string()).is_empty());
    assert_eq!(s.get_lottery_moderator(&id), None);
    assert!(!s.get_commitment_phase(&id));
    assert_eq!(s.get_winner(&id), None);
    assert_eq!(s.get_verification_hash(&id), None);
}

#[test]
fn listing_shows_phase_flags_in_creation_order() {
    let mut s = State::new();
    let id1 = created(&mut s, 10, 1, "alice");
    let id2 = created(&mut s, 20, 2, "alice");
    s.start_commitment_phase(&id2, &"alice".to_string()).unwrap();
    let infos = s.get_all_lotteries();
    assert_eq!(infos.len(), 2);
    assert_eq!(infos[0].0, id1);
    assert!(!infos[0].1.commit_phase);
    assert_eq!(infos[1].0, id2);
    assert!(infos[1].1.commit_phase);
}
