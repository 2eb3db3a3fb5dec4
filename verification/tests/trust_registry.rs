use agent_escrow::errors::EscrowError;
use agent_escrow::trust::{
    ban_human, check_human_ban, create_human_record, flag_human, unban_human, EscrowConfig,
};

const HUMAN: u64 = 9;
const ADMIN: u64 = 100;

#[test]
fn a_fresh_record_is_strike_free_and_unbanned() {
    let record = create_human_record(HUMAN);
    assert_eq!(record.wallet, HUMAN);
    assert_eq!(record.strike_count, 0);
    assert!(!record.banned);
    check_human_ban(&record).unwrap();
}

#[test]
fn three_flags_from_distinct_reporters_ban_and_a_fourth_keeps_the_ban() {
    let mut record = create_human_record(HUMAN);
    flag_human(201, &mut record, String::from("spam"), 1_000).unwrap();
    assert_eq!(record.strike_count, 1);
    assert!(!record.banned);
    flag_human(202, &mut record, String::from("fraud"), 1_100).unwrap();
    assert_eq!(record.strike_count, 2);
    assert!(!record.banned);
    flag_human(203, &mut record, String::from("abuse"), 1_200).unwrap();
    assert_eq!(record.strike_count, 3);
    assert!(record.banned);
    flag_human(204, &mut record, String::from("more abuse"), 1_300).unwrap();
    assert_eq!(record.strike_count, 4);
    assert!(record.banned);
    assert_eq!(record.last_flagged_by, 204);
    assert_eq!(record.last_flag_reason, "more abuse");
    assert_eq!(record.last_flagged_at, 1_300);
}

#[test]
fn a_flag_with_a_long_reason_fails() {
    let mut record = create_human_record(HUMAN);
    assert_eq!(
        flag_human(201, &mut record, "r".repeat(201), 1_000).unwrap_err(),
        EscrowError::MemoTooLong
    );
    assert_eq!(record.strike_count, 0);
}

#[test]
fn the_ban_check_fails_exactly_for_a_banned_human() {
    let mut record = create_human_record(HUMAN);
    check_human_ban(&record).unwrap();
    let config = EscrowConfig { admin: ADMIN };
    ban_human(ADMIN, &config, &mut record, String::from("rogue"), 1_000).unwrap();
    assert_eq!(check_human_ban(&record).unwrap_err(), EscrowError::HumanBanned);
}

#[test]
fn an_admin_ban_keeps_the_strike_count() {
    let mut record = create_human_record(HUMAN);
    flag_human(201, &mut record, String::from("spam"), 1_000).unwrap();
    let config = EscrowConfig { admin: ADMIN };
    ban_human(ADMIN, &config, &mut record, String::from("rogue"), 1_100).unwrap();
    assert!(record.banned);
    assert_eq!(record.strike_count, 1);
    assert_eq!(record.last_flagged_by, ADMIN);
    assert_eq!(record.last_flag_reason, "rogue");
}

#[test]
fn a_ban_by_a_non_admin_fails() {
    let mut record = create_human_record(HUMAN);
    let config = EscrowConfig { admin: ADMIN };
    assert_eq!(
        ban_human(77, &config, &mut record, String::from("rogue"), 1_000).unwrap_err(),
        EscrowError::Unauthorized
    );
    assert!(!record.banned);
}

#[test]
fn a_ban_with_a_long_reason_fails() {
    let mut record = create_human_record(HUMAN);
    let config = EscrowConfig { admin: ADMIN };
    assert_eq!(
        ban_human(ADMIN, &config, &mut record, "r".repeat(201), 1_000).unwrap_err(),
        EscrowError::MemoTooLong
    );
}

#[test]
fn an_unban_lifts_the_ban_and_resets_the_strikes() {
    let mut record = create_human_record(HUMAN);
    flag_human(201, &mut record, String::from("a"), 1_000).unwrap();
    flag_human(202, &mut record, String::from("b"), 1_100).unwrap();
    flag_human(203, &mut record, String::from("c"), 1_200).unwrap();
    assert!(record.banned);
    let config = EscrowConfig { admin: ADMIN };
    unban_human(ADMIN, &config, &mut record).unwrap();
    assert!(!record.banned);
    assert_eq!(record.strike_count, 0);
    check_human_ban(&record).unwrap();
}

#[test]
fn an_unban_by_a_non_admin_fails() {
    let mut record = create_human_record(HUMAN);
    let config = EscrowConfig { admin: ADMIN };
    assert_eq!(
        unban_human(77, &config, &mut record).unwrap_err(),
        EscrowError::Unauthorized
    );
}
