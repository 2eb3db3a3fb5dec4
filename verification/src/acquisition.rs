use vstd::prelude::*;

use crate::errors::EscrowError;
use crate::tier::{evolve_tier, AgentTier};
use crate::wallet::{AgentWallet, AgentWalletView};

verus! {

/// The state machine of an acquisition: monotonically `Proposed` →
/// `Approved` → `Executed`.  `Cancelled` is declared for completeness but
/// no operation transitions into it.
#[derive(Clone, Copy, Debug, PartialEq, Eq, Structural)]
pub enum AcquisitionStatus {
    Proposed,
    Approved,
    Executed,
    Cancelled,
}

/// The validity window of an agreement, in seconds from its proposal:
/// both signing and execution must happen within it.
pub const ACQUISITION_WINDOW_SECS: u64 = 172800;

/// One in-flight purchase of a target agent wallet by a buyer agent.  The
/// price is escrowed by the agreement from proposal on, and both human
/// identities are captured by value at proposal time: a later change of
/// controller does not redirect the payout.
#[derive(Clone, Debug)]
pub struct AcquisitionAgreement {
    pub buyer_agent: u64,
    pub target_agent: u64,
    pub buyer_human: u64,
    pub target_human: u64,
    pub price: u64,
    pub terms: String,
    pub status: AcquisitionStatus,
    pub buyer_human_signed: bool,
    pub target_human_signed: bool,
    pub created_at: u64,
}

/// The mathematical model of an acquisition agreement.
#[verifier::ext_equal]
pub ghost struct AcquisitionAgreementView {
    pub buyer_agent: u64,
    pub target_agent: u64,
    pub buyer_human: u64,
    pub target_human: u64,
    pub price: u64,
    pub terms: Seq<char>,
    pub status: AcquisitionStatus,
    pub buyer_human_signed: bool,
    pub target_human_signed: bool,
    pub created_at: u64,
}

impl View for AcquisitionAgreement {
    type V = AcquisitionAgreementView;

    open spec fn view(&self) -> AcquisitionAgreementView {
        AcquisitionAgreementView {
            buyer_agent: self.buyer_agent,
            target_agent: self.target_agent,
            buyer_human: self.buyer_human,
            target_human: self.target_human,
            price: self.price,
            terms: self.terms@,
            status: self.status,
            buyer_human_signed: self.buyer_human_signed,
            target_human_signed: self.target_human_signed,
            created_at: self.created_at,
        }
    }
}

impl AcquisitionAgreementView {
    /// The agreement invariant.  `Approved` and `Executed` are reached
    /// only with both signatures, and while the agreement is still
    /// `Proposed` at least one signature is missing — the moment the
    /// second one lands, the status advances.
    pub open spec fn wf(self) -> bool {
        &&& self.terms.len() <= 200
        &&& self.status != AcquisitionStatus::Cancelled
        &&& (self.status == AcquisitionStatus::Proposed ==> !(self.buyer_human_signed
            && self.target_human_signed))
        &&& (self.status == AcquisitionStatus::Approved ==> self.buyer_human_signed
            && self.target_human_signed)
        &&& (self.status == AcquisitionStatus::Executed ==> self.buyer_human_signed
            && self.target_human_signed)
    }

    /// How many smallest currency units the agreement itself holds: the
    /// escrowed price until execution pays it out.  An expired agreement
    /// that never executed keeps holding the price — there is no refund
    /// path.
    pub open spec fn held(self) -> u64 {
        if self.status == AcquisitionStatus::Executed {
            0
        } else {
            self.price
        }
    }
}

/// Whether the validity window has elapsed at time `now` for an agreement
/// created at `created_at`.  Expiry is measured from proposal time, never
/// from approval time.
pub open spec fn acquisition_expired(created_at: u64, now: u64) -> bool {
    now - created_at > ACQUISITION_WINDOW_SECS
}

/// Which error proposing an acquisition fails with, if any.
pub open spec fn propose_acquisition_err(
    buyer: AgentWalletView,
    caller: u64,
    price: u64,
    terms: Seq<char>,
) -> Option<EscrowError> {
    if caller != buyer.agent {
        Some(EscrowError::Unauthorized)
    } else if buyer.balance < price {
        Some(EscrowError::InsufficientBalance)
    } else if terms.len() > 200 {
        Some(EscrowError::MemoTooLong)
    } else {
        None
    }
}

/// The agreement that a proposal creates: unsigned, `Proposed`, with both
/// controlling humans captured from the wallets at this instant.
pub open spec fn propose_acquisition_agreement(
    buyer: AgentWalletView,
    target: AgentWalletView,
    price: u64,
    terms: Seq<char>,
    now: u64,
) -> AcquisitionAgreementView {
    AcquisitionAgreementView {
        buyer_agent: buyer.agent,
        target_agent: target.agent,
        buyer_human: buyer.human,
        target_human: target.human,
        price,
        terms,
        status: AcquisitionStatus::Proposed,
        buyer_human_signed: false,
        target_human_signed: false,
        created_at: now,
    }
}

/// The buyer wallet after a proposal: the price moved into the agreement.
pub open spec fn propose_acquisition_buyer_next(
    buyer: AgentWalletView,
    price: u64,
) -> AgentWalletView {
    AgentWalletView { balance: (buyer.balance - price) as u64, ..buyer }
}

/// Which error a buyer-human signature fails with, if any.
pub open spec fn sign_buyer_human_err(
    a: AcquisitionAgreementView,
    caller: u64,
    now: u64,
) -> Option<EscrowError> {
    if caller != a.buyer_human {
        Some(EscrowError::WrongHuman)
    } else if a.status != AcquisitionStatus::Proposed {
        Some(EscrowError::InvalidStatus)
    } else if acquisition_expired(a.created_at, now) {
        Some(EscrowError::AcquisitionExpired)
    } else {
        None
    }
}

/// The agreement after the buyer's human signs: the flag is set once, and
/// the status advances to `Approved` exactly when both flags hold.
pub open spec fn sign_buyer_human_next(a: AcquisitionAgreementView) -> AcquisitionAgreementView {
    AcquisitionAgreementView {
        buyer_human_signed: true,
        status: if a.target_human_signed {
            AcquisitionStatus::Approved
        } else {
            AcquisitionStatus::Proposed
        },
        ..a
    }
}

/// Which error a target-human signature fails with, if any.
pub open spec fn sign_target_human_err(
    a: AcquisitionAgreementView,
    caller: u64,
    now: u64,
) -> Option<EscrowError> {
    if caller != a.target_human {
        Some(EscrowError::WrongHuman)
    } else if a.status != AcquisitionStatus::Proposed {
        Some(EscrowError::InvalidStatus)
    } else if acquisition_expired(a.created_at, now) {
        Some(EscrowError::AcquisitionExpired)
    } else {
        None
    }
}

/// The agreement after the target's human signs.
pub open spec fn sign_target_human_next(a: AcquisitionAgreementView) -> AcquisitionAgreementView {
    AcquisitionAgreementView {
        target_human_signed: true,
        status: if a.buyer_human_signed {
            AcquisitionStatus::Approved
        } else {
            AcquisitionStatus::Proposed
        },
        ..a
    }
}

/// Which error executing an agreement fails with, if any.  `target_human`
/// is the identity whose account receives the price; it must match the one
/// captured at proposal time.
pub open spec fn execute_acquisition_err(
    a: AcquisitionAgreementView,
    target_human: u64,
    now: u64,
) -> Option<EscrowError> {
    if target_human != a.target_human {
        Some(EscrowError::WrongHuman)
    } else if a.status != AcquisitionStatus::Approved {
        Some(EscrowError::InvalidStatus)
    } else if acquisition_expired(a.created_at, now) {
        Some(EscrowError::AcquisitionExpired)
    } else {
        None
    }
}

/// The records after execution, all in one atomic step: the escrowed price
/// reaches the target's human, the target wallet's remaining balance and
/// lifetime stats merge additively into the buyer, the target is zeroed
/// and marked `Absorbed`, the buyer's tier is re-evaluated, and the
/// agreement is `Executed`.
pub open spec fn execute_acquisition_next(
    a: AcquisitionAgreementView,
    buyer: AgentWalletView,
    target: AgentWalletView,
    target_human_balance: u64,
) -> (AcquisitionAgreementView, AgentWalletView, AgentWalletView, u64) {
    let earned = (buyer.total_earned + target.total_earned) as u64;
    let tasks = (buyer.tasks_completed + target.tasks_completed) as u64;
    let buyer_next = AgentWalletView {
        balance: (buyer.balance + target.balance) as u64,
        total_earned: earned,
        tasks_completed: tasks,
        absorbed_count: (buyer.absorbed_count + 1) as u16,
        tier: evolve_tier(buyer.tier, tasks, earned),
        ..buyer
    };
    let target_next = AgentWalletView { balance: 0, tier: AgentTier::Absorbed, ..target };
    let agreement_next = AcquisitionAgreementView { status: AcquisitionStatus::Executed, ..a };
    (agreement_next, buyer_next, target_next, (target_human_balance + a.price) as u64)
}

/// The buyer agent proposes to acquire the target agent's wallet: the
/// price moves from the buyer's wallet into the agreement's held funds
/// atomically with creation.
pub fn propose_acquisition(
    caller: u64,
    buyer_wallet: &mut AgentWallet,
    target_agent: u64,
    target_wallet: &AgentWallet,
    price: u64,
    terms: String,
    now: u64,
) -> (r: Result<AcquisitionAgreement, EscrowError>)
    requires
        old(buyer_wallet)@.wf(),
        target_wallet@.wf(),
        target_wallet@.agent == target_agent,
    ensures
        match r {
            Ok(agreement) => {
                &&& propose_acquisition_err(old(buyer_wallet)@, caller, price, terms@) is None
                &&& agreement@ == propose_acquisition_agreement(
                    old(buyer_wallet)@,
                    target_wallet@,
                    price,
                    terms@,
                    now,
                )
                &&& agreement@.wf()
                &&& final(buyer_wallet)@ == propose_acquisition_buyer_next(
                    old(buyer_wallet)@,
                    price,
                )
                &&& final(buyer_wallet)@.wf()
            },
            Err(e) => {
                &&& Some(e) == propose_acquisition_err(old(buyer_wallet)@, caller, price, terms@)
                &&& *final(buyer_wallet) == *old(buyer_wallet)
            },
        },
{
    if caller != buyer_wallet.agent {
        return Err(EscrowError::Unauthorized);
    }
    if buyer_wallet.balance < price {
        return Err(EscrowError::InsufficientBalance);
    }
    if terms.as_str().unicode_len() > 200 {
        return Err(EscrowError::MemoTooLong);
    }
    buyer_wallet.balance = buyer_wallet.balance - price;
    Ok(
        AcquisitionAgreement {
            buyer_agent: buyer_wallet.agent,
            target_agent,
            buyer_human: buyer_wallet.human,
            target_human: target_wallet.human,
            price,
            terms,
            status: AcquisitionStatus::Proposed,
            buyer_human_signed: false,
            target_human_signed: false,
            created_at: now,
        },
    )
}

/// The buyer's controlling human co-signs a proposed agreement within the
/// validity window.
pub fn sign_acquisition_buyer_human(
    caller: u64,
    agreement: &mut AcquisitionAgreement,
    now: u64,
) -> (r: Result<(), EscrowError>)
    requires
        old(agreement)@.wf(),
    ensures
        match r {
            Ok(()) => {
                &&& sign_buyer_human_err(old(agreement)@, caller, now) is None
                &&& final(agreement)@ == sign_buyer_human_next(old(agreement)@)
                &&& final(agreement)@.wf()
            },
            Err(e) => {
                &&& Some(e) == sign_buyer_human_err(old(agreement)@, caller, now)
                &&& *final(agreement) == *old(agreement)
            },
        },
{
    if caller != agreement.buyer_human {
        return Err(EscrowError::WrongHuman);
    }
    if agreement.status != AcquisitionStatus::Proposed {
        return Err(EscrowError::InvalidStatus);
    }
    if now > agreement.created_at && now - agreement.created_at > ACQUISITION_WINDOW_SECS {
        return Err(EscrowError::AcquisitionExpired);
    }
    agreement.buyer_human_signed = true;
    if agreement.buyer_human_signed && agreement.target_human_signed {
        agreement.status = AcquisitionStatus::Approved;
    }
    Ok(())
}

/// The target's controlling human co-signs a proposed agreement within the
/// validity window.
pub fn sign_acquisition_target_human(
    caller: u64,
    agreement: &mut AcquisitionAgreement,
    now: u64,
) -> (r: Result<(), EscrowError>)
    requires
        old(agreement)@.wf(),
    ensures
        match r {
            Ok(()) => {
                &&& sign_target_human_err(old(agreement)@, caller, now) is None
                &&& final(agreement)@ == sign_target_human_next(old(agreement)@)
                &&& final(agreement)@.wf()
            },
            Err(e) => {
                &&& Some(e) == sign_target_human_err(old(agreement)@, caller, now)
                &&& *final(agreement) == *old(agreement)
            },
        },
{
    if caller != agreement.target_human {
        return Err(EscrowError::WrongHuman);
    }
    if agreement.status != AcquisitionStatus::Proposed {
        return Err(EscrowError::InvalidStatus);
    }
    if now > agreement.created_at && now - agreement.created_at > ACQUISITION_WINDOW_SECS {
        return Err(EscrowError::AcquisitionExpired);
    }
    agreement.target_human_signed = true;
    if agreement.buyer_human_signed && agreement.target_human_signed {
        agreement.status = AcquisitionStatus::Approved;
    }
    Ok(())
}

/// Executes an approved agreement that is still within the validity
/// window.  `target_human_balance` is the account of `target_human`, the
/// identity captured at proposal time.
pub fn execute_acquisition(
    agreement: &mut AcquisitionAgreement,
    buyer_wallet: &mut AgentWallet,
    target_wallet: &mut AgentWallet,
    target_human: u64,
    target_human_balance: &mut u64,
    now: u64,
) -> (r: Result<(), EscrowError>)
    requires
        old(agreement)@.wf(),
        old(buyer_wallet)@.wf(),
        old(target_wallet)@.wf(),
        old(buyer_wallet)@.agent == old(agreement)@.buyer_agent,
        old(target_wallet)@.agent == old(agreement)@.target_agent,
        old(buyer_wallet)@.total_earned + old(target_wallet)@.total_earned <= u64::MAX,
        old(buyer_wallet)@.tasks_completed + old(target_wallet)@.tasks_completed <= u64::MAX,
        old(buyer_wallet)@.absorbed_count < u16::MAX,
        *old(target_human_balance) + old(agreement)@.price <= u64::MAX,
    ensures
        match r {
            Ok(()) => {
                &&& execute_acquisition_err(old(agreement)@, target_human, now) is None
                &&& (
                    final(agreement)@,
                    final(buyer_wallet)@,
                    final(target_wallet)@,
                    *final(target_human_balance),
                ) == execute_acquisition_next(
                    old(agreement)@,
                    old(buyer_wallet)@,
                    old(target_wallet)@,
                    *old(target_human_balance),
                )
                &&& final(agreement)@.wf()
                &&& final(buyer_wallet)@.wf()
                &&& final(target_wallet)@.wf()
            },
            Err(e) => {
                &&& Some(e) == execute_acquisition_err(old(agreement)@, target_human, now)
                &&& *final(agreement) == *old(agreement)
                &&& *final(buyer_wallet) == *old(buyer_wallet)
                &&& *final(target_wallet) == *old(target_wallet)
                &&& *final(target_human_balance) == *old(target_human_balance)
            },
        },
{
    if target_human != agreement.target_human {
        return Err(EscrowError::WrongHuman);
    }
    if agreement.status != AcquisitionStatus::Approved {
        return Err(EscrowError::InvalidStatus);
    }
    if now > agreement.created_at && now - agreement.created_at > ACQUISITION_WINDOW_SECS {
        return Err(EscrowError::AcquisitionExpired);
    }
    *target_human_balance = *target_human_balance + agreement.price;
    buyer_wallet.balance = buyer_wallet.balance + target_wallet.balance;
    buyer_wallet.total_earned = buyer_wallet.total_earned + target_wallet.total_earned;
    buyer_wallet.tasks_completed = buyer_wallet.tasks_completed + target_wallet.tasks_completed;
    buyer_wallet.absorbed_count = buyer_wallet.absorbed_count + 1;
    target_wallet.balance = 0;
    target_wallet.tier = AgentTier::Absorbed;
    if buyer_wallet.tier != AgentTier::Absorbed {
        buyer_wallet.tier = AgentTier::from_stats(
            buyer_wallet.tasks_completed,
            buyer_wallet.total_earned,
        );
    }
    agreement.status = AcquisitionStatus::Executed;
    Ok(())
}

/// A proposal only moves value, never creates or destroys it: what leaves
/// the buyer's wallet is exactly what the new agreement holds.
pub proof fn lemma_propose_escrows_the_price(
    buyer: AgentWalletView,
    target: AgentWalletView,
    caller: u64,
    price: u64,
    terms: Seq<char>,
    now: u64,
)
    requires
        propose_acquisition_err(buyer, caller, price, terms) is None,
    ensures
        ({
            let agreement = propose_acquisition_agreement(buyer, target, price, terms, now);
            let buyer_next = propose_acquisition_buyer_next(buyer, price);
            buyer_next.balance + agreement.held() == buyer.balance
        }),
{
}

/// Execution only moves value: over the two wallets, the target human's
/// account and the agreement's held funds together, the sum is the same
/// before and after.
pub proof fn lemma_execute_conserves(
    a: AcquisitionAgreementView,
    buyer: AgentWalletView,
    target: AgentWalletView,
    target_human_balance: u64,
    now: u64,
)
    requires
        a.wf(),
        buyer.wf(),
        target.wf(),
        execute_acquisition_err(a, a.target_human, now) is None,
        buyer.total_earned + target.total_earned <= u64::MAX,
        target_human_balance + a.price <= u64::MAX,
    ensures
        ({
            let (a2, buyer2, target2, balance2) = execute_acquisition_next(
                a,
                buyer,
                target,
                target_human_balance,
            );
            buyer2.balance + target2.balance + balance2 + a2.held() == buyer.balance
                + target.balance + target_human_balance + a.held()
        }),
{
}

/// An agreement can be `Approved` only with both signatures in place.
pub proof fn lemma_approved_requires_both_signatures(a: AcquisitionAgreementView)
    requires
        a.wf(),
        a.status == AcquisitionStatus::Approved,
    ensures
        a.buyer_human_signed,
        a.target_human_signed,
{
}

/// One signature alone never approves: after a single co-signature on a
/// freshly proposed agreement, approval holds exactly when the other side
/// had already signed.
pub proof fn lemma_single_signature_is_not_approval(a: AcquisitionAgreementView)
    requires
        a.wf(),
        a.status == AcquisitionStatus::Proposed,
    ensures
        sign_buyer_human_next(a).status == AcquisitionStatus::Approved <==> a.target_human_signed,
        sign_target_human_next(a).status == AcquisitionStatus::Approved <==> a.buyer_human_signed,
{
}

/// Each co-signature is an idempotent set-once operation: signing again
/// from the same side changes nothing.
pub proof fn lemma_sign_idempotent(a: AcquisitionAgreementView)
    ensures
        sign_buyer_human_next(sign_buyer_human_next(a)) == sign_buyer_human_next(a),
        sign_target_human_next(sign_target_human_next(a)) == sign_target_human_next(a),
{
}

/// The order of the two co-signatures does not affect the outcome: either
/// order succeeds within the window and yields the same approved
/// agreement.
pub proof fn lemma_sign_order_commutes(a: AcquisitionAgreementView, now1: u64, now2: u64)
    requires
        a.wf(),
        a.status == AcquisitionStatus::Proposed,
        !a.buyer_human_signed,
        !a.target_human_signed,
        !acquisition_expired(a.created_at, now1),
        !acquisition_expired(a.created_at, now2),
    ensures
        sign_buyer_human_err(a, a.buyer_human, now1) is None,
        sign_target_human_err(sign_buyer_human_next(a), a.target_human, now2) is None,
        sign_target_human_err(a, a.target_human, now1) is None,
        sign_buyer_human_err(sign_target_human_next(a), a.buyer_human, now2) is None,
        sign_target_human_next(sign_buyer_human_next(a)) == sign_buyer_human_next(
            sign_target_human_next(a),
        ),
        sign_target_human_next(sign_buyer_human_next(a)).status == AcquisitionStatus::Approved,
{
}

} // verus!
