use agent_escrow::acquisition::{
    execute_acquisition, propose_acquisition, sign_acquisition_buyer_human,
    sign_acquisition_target_human, AcquisitionStatus,
};
use agent_escrow::errors::EscrowError;
use agent_escrow::task::{complete_task, initialize_task};
use agent_escrow::tier::AgentTier;
use agent_escrow::wallet::{create_agent_wallet, AgentWallet};

const POSTER: u64 = 1;
const BUYER_AGENT: u64 = 42;
const BUYER_HUMAN: u64 = 9;
const TARGET_AGENT: u64 = 43;
const TARGET_HUMAN: u64 = 8;

/// Earns `amount` into `wallet` through a completed task bounty.
fn earn(wallet: &mut AgentWallet, amount: u64) {
    let mut poster_balance = amount;
    let mut escrow = initialize_task(
        POSTER,
        &mut poster_balance,
        String::from("T"),
        amount,
        String::from("d"),
        100,
    )
    .unwrap();
    complete_task(POSTER, &mut escrow, wallet, 150).unwrap();
}

fn funded_pair() -> (AgentWallet, AgentWallet) {
    let mut buyer = create_agent_wallet(BUYER_AGENT, BUYER_HUMAN, 0);
    earn(&mut buyer, 5_000_000);
    let mut target = create_agent_wallet(TARGET_AGENT, TARGET_HUMAN, 0);
    earn(&mut target, 500_000);
    (buyer, target)
}

#[test]
fn the_full_acquisition_scenario_moves_funds_and_absorbs_the_target() {
    let (mut buyer, mut target) = funded_pair();
    assert_eq!(buyer.balance, 5_000_000);

    let mut agreement = propose_acquisition(
        BUYER_AGENT,
        &mut buyer,
        TARGET_AGENT,
        &target,
        2_000_000,
        String::from("merge of equals"),
        1_000,
    )
    .unwrap();
    assert_eq!(buyer.balance, 3_000_000);
    assert_eq!(agreement.status, AcquisitionStatus::Proposed);
    assert_eq!(agreement.buyer_human, BUYER_HUMAN);
    assert_eq!(agreement.target_human, TARGET_HUMAN);
    assert!(!agreement.buyer_human_signed);
    assert!(!agreement.target_human_signed);

    sign_acquisition_buyer_human(BUYER_HUMAN, &mut agreement, 1_300).unwrap();
    assert_eq!(agreement.status, AcquisitionStatus::Proposed);
    sign_acquisition_target_human(TARGET_HUMAN, &mut agreement, 1_600).unwrap();
    assert_eq!(agreement.status, AcquisitionStatus::Approved);

    let mut target_human_balance: u64 = 0;
    execute_acquisition(
        &mut agreement,
        &mut buyer,
        &mut target,
        TARGET_HUMAN,
        &mut target_human_balance,
        2_000,
    )
    .unwrap();
    assert_eq!(target_human_balance, 2_000_000);
    assert_eq!(buyer.balance, 3_500_000);
    assert_eq!(buyer.total_earned, 5_500_000);
    assert_eq!(buyer.tasks_completed, 2);
    assert_eq!(buyer.absorbed_count, 1);
    assert_eq!(target.balance, 0);
    assert_eq!(target.tier, AgentTier::Absorbed);
    assert_eq!(agreement.status, AcquisitionStatus::Executed);
}

#[test]
fn signing_in_the_other_order_approves_just_the_same() {
    let (mut buyer, target) = funded_pair();
    let mut agreement = propose_acquisition(
        BUYER_AGENT,
        &mut buyer,
        TARGET_AGENT,
        &target,
        2_000_000,
        String::from("t"),
        1_000,
    )
    .unwrap();
    sign_acquisition_target_human(TARGET_HUMAN, &mut agreement, 1_300).unwrap();
    assert_eq!(agreement.status, AcquisitionStatus::Proposed);
    sign_acquisition_buyer_human(BUYER_HUMAN, &mut agreement, 1_600).unwrap();
    assert_eq!(agreement.status, AcquisitionStatus::Approved);
    assert!(agreement.buyer_human_signed);
    assert!(agreement.target_human_signed);
}

#[test]
fn a_proposal_needs_the_buyer_agent_itself() {
    let (mut buyer, target) = funded_pair();
    let r = propose_acquisition(
        77,
        &mut buyer,
        TARGET_AGENT,
        &target,
        2_000_000,
        String::from("t"),
        1_000,
    );
    assert_eq!(r.unwrap_err(), EscrowError::Unauthorized);
    assert_eq!(buyer.balance, 5_000_000);
}

#[test]
fn a_proposal_beyond_the_buyer_balance_fails() {
    let (mut buyer, target) = funded_pair();
    let r = propose_acquisition(
        BUYER_AGENT,
        &mut buyer,
        TARGET_AGENT,
        &target,
        5_000_001,
        String::from("t"),
        1_000,
    );
    assert_eq!(r.unwrap_err(), EscrowError::InsufficientBalance);
    assert_eq!(buyer.balance, 5_000_000);
}

#[test]
fn a_proposal_with_long_terms_fails() {
    let (mut buyer, target) = funded_pair();
    let r = propose_acquisition(
        BUYER_AGENT,
        &mut buyer,
        TARGET_AGENT,
        &target,
        2_000_000,
        "t".repeat(201),
        1_000,
    );
    assert_eq!(r.unwrap_err(), EscrowError::MemoTooLong);
    assert_eq!(buyer.balance, 5_000_000);
}

#[test]
fn only_the_captured_humans_may_sign() {
    let (mut buyer, target) = funded_pair();
    let mut agreement = propose_acquisition(
        BUYER_AGENT,
        &mut buyer,
        TARGET_AGENT,
        &target,
        2_000_000,
        String::from("t"),
        1_000,
    )
    .unwrap();
    assert_eq!(
        sign_acquisition_buyer_human(TARGET_HUMAN, &mut agreement, 1_100).unwrap_err(),
        EscrowError::WrongHuman
    );
    assert_eq!(
        sign_acquisition_target_human(BUYER_HUMAN, &mut agreement, 1_100).unwrap_err(),
        EscrowError::WrongHuman
    );
    assert!(!agreement.buyer_human_signed);
    assert!(!agreement.target_human_signed);
}

#[test]
fn signing_at_the_window_edge_succeeds_and_one_second_later_fails() {
    let (mut buyer, target) = funded_pair();
    let mut agreement = propose_acquisition(
        BUYER_AGENT,
        &mut buyer,
        TARGET_AGENT,
        &target,
        2_000_000,
        String::from("t"),
        1_000,
    )
    .unwrap();
    sign_acquisition_buyer_human(BUYER_HUMAN, &mut agreement, 1_000 + 172_800).unwrap();
    assert_eq!(
        sign_acquisition_target_human(TARGET_HUMAN, &mut agreement, 1_000 + 172_801).unwrap_err(),
        EscrowError::AcquisitionExpired
    );
}

#[test]
fn execution_one_second_past_the_window_fails_expired() {
    let (mut buyer, mut target) = funded_pair();
    let mut agreement = propose_acquisition(
        BUYER_AGENT,
        &mut buyer,
        TARGET_AGENT,
        &target,
        2_000_000,
        String::from("t"),
        1_000,
    )
    .unwrap();
    sign_acquisition_buyer_human(BUYER_HUMAN, &mut agreement, 1_100).unwrap();
    sign_acquisition_target_human(TARGET_HUMAN, &mut agreement, 1_200).unwrap();
    let mut target_human_balance: u64 = 0;
    assert_eq!(
        execute_acquisition(
            &mut agreement,
            &mut buyer,
            &mut target,
            TARGET_HUMAN,
            &mut target_human_balance,
            1_000 + 172_801,
        )
        .unwrap_err(),
        EscrowError::AcquisitionExpired
    );
    assert_eq!(agreement.status, AcquisitionStatus::Approved);
    assert_eq!(target_human_balance, 0);
    assert_eq!(buyer.balance, 3_000_000);
}

#[test]
fn executing_twice_fails_with_invalid_status() {
    let (mut buyer, mut target) = funded_pair();
    let mut agreement = propose_acquisition(
        BUYER_AGENT,
        &mut buyer,
        TARGET_AGENT,
        &target,
        2_000_000,
        String::from("t"),
        1_000,
    )
    .unwrap();
    sign_acquisition_buyer_human(BUYER_HUMAN, &mut agreement, 1_100).unwrap();
    sign_acquisition_target_human(TARGET_HUMAN, &mut agreement, 1_200).unwrap();
    let mut target_human_balance: u64 = 0;
    execute_acquisition(
        &mut agreement,
        &mut buyer,
        &mut target,
        TARGET_HUMAN,
        &mut target_human_balance,
        2_000,
    )
    .unwrap();
    assert_eq!(
        execute_acquisition(
            &mut agreement,
            &mut buyer,
            &mut target,
            TARGET_HUMAN,
            &mut target_human_balance,
            2_100,
        )
        .unwrap_err(),
        EscrowError::InvalidStatus
    );
    assert_eq!(target_human_balance, 2_000_000);
}

#[test]
fn execution_before_approval_fails_with_invalid_status() {
    let (mut buyer, mut target) = funded_pair();
    let mut agreement = propose_acquisition(
        BUYER_AGENT,
        &mut buyer,
        TARGET_AGENT,
        &target,
        2_000_000,
        String::from("t"),
        1_000,
    )
    .unwrap();
    sign_acquisition_buyer_human(BUYER_HUMAN, &mut agreement, 1_100).unwrap();
    let mut target_human_balance: u64 = 0;
    assert_eq!(
        execute_acquisition(
            &mut agreement,
            &mut buyer,
            &mut target,
            TARGET_HUMAN,
            &mut target_human_balance,
            1_200,
        )
        .unwrap_err(),
        EscrowError::InvalidStatus
    );
}

#[test]
fn execution_pays_only_the_human_captured_at_proposal_time() {
    let (mut buyer, mut target) = funded_pair();
    let mut agreement = propose_acquisition(
        BUYER_AGENT,
        &mut buyer,
        TARGET_AGENT,
        &target,
        2_000_000,
        String::from("t"),
        1_000,
    )
    .unwrap();
    sign_acquisition_buyer_human(BUYER_HUMAN, &mut agreement, 1_100).unwrap();
    sign_acquisition_target_human(TARGET_HUMAN, &mut agreement, 1_200).unwrap();
    let mut other_balance: u64 = 0;
    assert_eq!(
        execute_acquisition(
            &mut agreement,
            &mut buyer,
            &mut target,
            77,
            &mut other_balance,
            1_300,
        )
        .unwrap_err(),
        EscrowError::WrongHuman
    );
    assert_eq!(other_balance, 0);
}

#[test]
fn an_expired_unapproved_agreement_keeps_the_escrowed_price() {
    let (mut buyer, target) = funded_pair();
    let mut agreement = propose_acquisition(
        BUYER_AGENT,
        &mut buyer,
        TARGET_AGENT,
        &target,
        2_000_000,
        String::from("t"),
        1_000,
    )
    .unwrap();
    assert_eq!(buyer.balance, 3_000_000);
    assert_eq!(
        sign_acquisition_buyer_human(BUYER_HUMAN, &mut agreement, 1_000 + 172_801).unwrap_err(),
        EscrowError::AcquisitionExpired
    );
    // There is no refund path: the price stays held by the agreement and
    // the buyer wallet stays debited.
    assert_eq!(agreement.price, 2_000_000);
    assert_eq!(agreement.status, AcquisitionStatus::Proposed);
    assert_eq!(buyer.balance, 3_000_000);
}
