use vstd::prelude::*;

use crate::errors::EscrowError;
use crate::tier::{evolve_tier, tier_from_stats, AgentTier};

verus! {

/// The balance and statistics record of one autonomous agent, created once
/// and addressed by the agent's identity.  The controlling human is bound
/// at creation and never changes.
#[derive(Clone, Debug)]
pub struct AgentWallet {
    pub agent: u64,
    pub human: u64,
    pub balance: u64,
    pub total_earned: u64,
    pub total_distributed_to_human: u64,
    pub total_spent: u64,
    pub tasks_completed: u64,
    pub tier: AgentTier,
    pub absorbed_count: u16,
    pub created_at: u64,
}

/// The mathematical model of an agent wallet.
#[verifier::ext_equal]
pub ghost struct AgentWalletView {
    pub agent: u64,
    pub human: u64,
    pub balance: u64,
    pub total_earned: u64,
    pub total_distributed_to_human: u64,
    pub total_spent: u64,
    pub tasks_completed: u64,
    pub tier: AgentTier,
    pub absorbed_count: u16,
    pub created_at: u64,
}

impl View for AgentWallet {
    type V = AgentWalletView;

    open spec fn view(&self) -> AgentWalletView {
        AgentWalletView {
            agent: self.agent,
            human: self.human,
            balance: self.balance,
            total_earned: self.total_earned,
            total_distributed_to_human: self.total_distributed_to_human,
            total_spent: self.total_spent,
            tasks_completed: self.tasks_completed,
            tier: self.tier,
            absorbed_count: self.absorbed_count,
            created_at: self.created_at,
        }
    }
}

impl AgentWalletView {
    /// The wallet invariant.  The spendable balance never exceeds what was
    /// earned less what already left the wallet (funds merged in by an
    /// acquisition arrive together with the absorbed wallet's earnings, so
    /// the inequality survives the merge), and the tier tracks the stats
    /// except once the wallet is absorbed.
    pub open spec fn wf(self) -> bool {
        &&& self.balance + self.total_distributed_to_human + self.total_spent
            <= self.total_earned
        &&& (self.tier == AgentTier::Absorbed || self.tier == tier_from_stats(
            self.tasks_completed,
            self.total_earned,
        ))
    }
}

/// The freshly created wallet of `agent`, controlled by `human`.
pub open spec fn new_wallet(agent: u64, human: u64, now: u64) -> AgentWalletView {
    AgentWalletView {
        agent,
        human,
        balance: 0,
        total_earned: 0,
        total_distributed_to_human: 0,
        total_spent: 0,
        tasks_completed: 0,
        tier: AgentTier::Bot,
        absorbed_count: 0,
        created_at: now,
    }
}

/// A wallet after a task bounty of `amount` is paid into it: the balance,
/// the lifetime earnings and the task count grow, and the tier is
/// re-evaluated from the new stats.
pub open spec fn credit_from_task_next(w: AgentWalletView, amount: u64) -> AgentWalletView {
    let earned = (w.total_earned + amount) as u64;
    let tasks = (w.tasks_completed + 1) as u64;
    AgentWalletView {
        balance: (w.balance + amount) as u64,
        total_earned: earned,
        tasks_completed: tasks,
        tier: evolve_tier(w.tier, tasks, earned),
        ..w
    }
}

/// Which error a distribution to the human fails with, if any.
pub open spec fn distribute_to_human_err(
    w: AgentWalletView,
    caller: u64,
    human: u64,
    amount: u64,
) -> Option<EscrowError> {
    if human != w.human {
        Some(EscrowError::WrongHuman)
    } else if caller != w.agent {
        Some(EscrowError::Unauthorized)
    } else if w.balance < amount {
        Some(EscrowError::InsufficientBalance)
    } else {
        None
    }
}

/// A wallet after distributing `amount` to its human.
pub open spec fn distribute_to_human_next(w: AgentWalletView, amount: u64) -> AgentWalletView {
    AgentWalletView {
        balance: (w.balance - amount) as u64,
        total_distributed_to_human: (w.total_distributed_to_human + amount) as u64,
        ..w
    }
}

/// Which error an autonomous spend fails with, if any.
pub open spec fn agent_spend_err(
    w: AgentWalletView,
    caller: u64,
    amount: u64,
    memo: Seq<char>,
) -> Option<EscrowError> {
    if caller != w.agent {
        Some(EscrowError::Unauthorized)
    } else if w.balance < amount {
        Some(EscrowError::InsufficientBalance)
    } else if memo.len() > 200 {
        Some(EscrowError::MemoTooLong)
    } else {
        None
    }
}

/// A wallet after autonomously spending `amount`.
pub open spec fn agent_spend_next(w: AgentWalletView, amount: u64) -> AgentWalletView {
    AgentWalletView {
        balance: (w.balance - amount) as u64,
        total_spent: (w.total_spent + amount) as u64,
        ..w
    }
}

/// Creates the one wallet of `agent`, zeroed and at the lowest tier.  That
/// no second wallet can be created for the same agent identity is the
/// surrounding addressing scheme's duty: records are named by stable keys,
/// and creating a name twice fails there.
pub fn create_agent_wallet(agent: u64, human: u64, now: u64) -> (wallet: AgentWallet)
    ensures
        wallet@ == new_wallet(agent, human, now),
        wallet@.wf(),
{
    AgentWallet {
        agent,
        human,
        balance: 0,
        total_earned: 0,
        total_distributed_to_human: 0,
        total_spent: 0,
        tasks_completed: 0,
        tier: AgentTier::Bot,
        absorbed_count: 0,
        created_at: now,
    }
}

/// Pays a task bounty into the wallet.  Only task completion calls this;
/// the escrow it pays from performs the matching debit atomically.
pub(crate) fn credit_from_task(wallet: &mut AgentWallet, amount: u64)
    requires
        old(wallet)@.wf(),
        old(wallet)@.total_earned + amount <= u64::MAX,
        old(wallet)@.tasks_completed < u64::MAX,
    ensures
        final(wallet)@ == credit_from_task_next(old(wallet)@, amount),
        final(wallet)@.wf(),
{
    wallet.balance = wallet.balance + amount;
    wallet.total_earned = wallet.total_earned + amount;
    wallet.tasks_completed = wallet.tasks_completed + 1;
    if wallet.tier != AgentTier::Absorbed {
        wallet.tier = AgentTier::from_stats(wallet.tasks_completed, wallet.total_earned);
    }
}

/// The agent moves `amount` of its spendable balance to its bound human.
/// `human` is the identity whose account `human_balance` belongs to; the
/// move happens only if it is the human recorded in the wallet.
pub fn distribute_to_human(
    caller: u64,
    wallet: &mut AgentWallet,
    human: u64,
    amount: u64,
    human_balance: &mut u64,
) -> (r: Result<(), EscrowError>)
    requires
        old(wallet)@.wf(),
        *old(human_balance) + amount <= u64::MAX,
    ensures
        match r {
            Ok(()) => {
                &&& distribute_to_human_err(old(wallet)@, caller, human, amount) is None
                &&& final(wallet)@ == distribute_to_human_next(old(wallet)@, amount)
                &&& final(wallet)@.wf()
                &&& *final(human_balance) == *old(human_balance) + amount
            },
            Err(e) => {
                &&& Some(e) == distribute_to_human_err(old(wallet)@, caller, human, amount)
                &&& *final(wallet) == *old(wallet)
                &&& *final(human_balance) == *old(human_balance)
            },
        },
{
    if human != wallet.human {
        return Err(EscrowError::WrongHuman);
    }
    if caller != wallet.agent {
        return Err(EscrowError::Unauthorized);
    }
    if wallet.balance < amount {
        return Err(EscrowError::InsufficientBalance);
    }
    wallet.balance = wallet.balance - amount;
    wallet.total_distributed_to_human = wallet.total_distributed_to_human + amount;
    *human_balance = *human_balance + amount;
    Ok(())
}

/// The agent spends `amount` of its balance on a recipient of its own
/// choice; the protocol trusts the agent's spend decision, so the
/// recipient is unrestricted.
pub fn agent_spend(
    caller: u64,
    wallet: &mut AgentWallet,
    amount: u64,
    memo: String,
    recipient_balance: &mut u64,
) -> (r: Result<(), EscrowError>)
    requires
        old(wallet)@.wf(),
        *old(recipient_balance) + amount <= u64::MAX,
    ensures
        match r {
            Ok(()) => {
                &&& agent_spend_err(old(wallet)@, caller, amount, memo@) is None
                &&& final(wallet)@ == agent_spend_next(old(wallet)@, amount)
                &&& final(wallet)@.wf()
                &&& *final(recipient_balance) == *old(recipient_balance) + amount
            },
            Err(e) => {
                &&& Some(e) == agent_spend_err(old(wallet)@, caller, amount, memo@)
                &&& *final(wallet) == *old(wallet)
                &&& *final(recipient_balance) == *old(recipient_balance)
            },
        },
{
    if caller != wallet.agent {
        return Err(EscrowError::Unauthorized);
    }
    if wallet.balance < amount {
        return Err(EscrowError::InsufficientBalance);
    }
    if memo.as_str().unicode_len() > 200 {
        return Err(EscrowError::MemoTooLong);
    }
    wallet.balance = wallet.balance - amount;
    wallet.total_spent = wallet.total_spent + amount;
    *recipient_balance = *recipient_balance + amount;
    Ok(())
}

} // verus!
