use lottery_core::errors::LotteryError;
use lottery_core::strfmt::{str_eq, u64_to_dec};
use lottery_core::types::Commit;

#[test]
fn decimal_rendering_is_exact() {
    assert_eq!(u64_to_dec(0), "0");
    assert_eq!(u64_to_dec(7), "7");
    assert_eq!(u64_to_dec(10), "10");
    assert_eq!(u64_to_dec(40960), "40960");
    assert_eq!(u64_to_dec(u64::MAX), "18446744073709551615");
}

#[test]
fn string_equality_is_exact() {
    assert!(str_eq("", ""));
    assert!(str_eq("lottery_a_1", "lottery_a_1"));
    assert!(!str_eq("lottery_a_1", "lottery_a_2"));
    assert!(!str_eq("a", "ab"));
}

#[test]
fn commit_records_keep_their_fields_when_cloned() {
    let c = Commit { commitment: "9f2c".to_string(), revealed: true, number: Some(7) };
    let d = c.clone();
    assert_eq!(d.commitment, "9f2c");
    assert!(d.revealed);
    assert_eq!(d.number, Some(7));
}

#[test]
fn error_messages_name_the_failure() {
    assert_eq!(LotteryError::InvalidQuantity.message(), "you must buy at least one ticket");
    assert_eq!(LotteryError::NoEligibleParticipants.message(), "no participants with valid tickets");
}
