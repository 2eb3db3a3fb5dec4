use vstd::prelude::*;

use crate::errors::EscrowError;
use crate::wallet::{credit_from_task, credit_from_task_next, AgentWallet, AgentWalletView};

verus! {

/// The lifecycle of a task escrow.  Transitions are monotonic: there is no
/// path back to `Open`.  `Cancelled` is declared for completeness but never
/// held by a live record: cancellation closes the escrow instead.
#[derive(Clone, Copy, Debug, PartialEq, Eq, Structural)]
pub enum TaskStatus {
    Open,
    InProgress,
    Completed,
    Cancelled,
}

/// One posted bounty.  The bounty amount is held by the escrow itself from
/// creation until completion pays it out or cancellation refunds it.
#[derive(Clone, Debug)]
pub struct TaskEscrow {
    pub poster: u64,
    pub task_id: String,
    pub description: String,
    pub bounty_amount: u64,
    pub status: TaskStatus,
    pub assigned_agent: Option<u64>,
    pub completed_agent: Option<u64>,
    pub created_at: u64,
    pub completed_at: Option<u64>,
}

/// The mathematical model of a task escrow.
#[verifier::ext_equal]
pub ghost struct TaskEscrowView {
    pub poster: u64,
    pub task_id: Seq<char>,
    pub description: Seq<char>,
    pub bounty_amount: u64,
    pub status: TaskStatus,
    pub assigned_agent: Option<u64>,
    pub completed_agent: Option<u64>,
    pub created_at: u64,
    pub completed_at: Option<u64>,
}

impl View for TaskEscrow {
    type V = TaskEscrowView;

    open spec fn view(&self) -> TaskEscrowView {
        TaskEscrowView {
            poster: self.poster,
            task_id: self.task_id@,
            description: self.description@,
            bounty_amount: self.bounty_amount,
            status: self.status,
            assigned_agent: self.assigned_agent,
            completed_agent: self.completed_agent,
            created_at: self.created_at,
            completed_at: self.completed_at,
        }
    }
}

impl TaskEscrowView {
    /// The escrow invariant: bounded strings, a positive bounty, and
    /// status-dependent fields that record exactly how far the lifecycle
    /// has come.
    pub open spec fn wf(self) -> bool {
        &&& self.task_id.len() <= 50
        &&& self.description.len() <= 200
        &&& self.bounty_amount > 0
        &&& self.status != TaskStatus::Cancelled
        &&& (self.status == TaskStatus::Open ==> self.assigned_agent is None)
        &&& (self.status != TaskStatus::Completed ==> self.completed_agent is None
            && self.completed_at is None)
        &&& (self.status == TaskStatus::Completed ==> self.completed_agent is Some
            && self.completed_at is Some)
    }

    /// How many smallest currency units the escrow itself holds: the full
    /// bounty until completion pays it out.
    pub open spec fn held(self) -> u64 {
        if self.status == TaskStatus::Completed {
            0
        } else {
            self.bounty_amount
        }
    }
}

/// Which error opening a task escrow fails with, if any.
pub open spec fn initialize_task_err(
    task_id: Seq<char>,
    bounty_amount: u64,
    description: Seq<char>,
    poster_balance: u64,
) -> Option<EscrowError> {
    if task_id.len() > 50 {
        Some(EscrowError::MemoTooLong)
    } else if description.len() > 200 {
        Some(EscrowError::MemoTooLong)
    } else if bounty_amount == 0 {
        Some(EscrowError::InvalidAmount)
    } else if poster_balance < bounty_amount {
        Some(EscrowError::InsufficientBalance)
    } else {
        None
    }
}

/// The escrow that opening a task creates.
pub open spec fn open_escrow(
    poster: u64,
    task_id: Seq<char>,
    bounty_amount: u64,
    description: Seq<char>,
    now: u64,
) -> TaskEscrowView {
    TaskEscrowView {
        poster,
        task_id,
        description,
        bounty_amount,
        status: TaskStatus::Open,
        assigned_agent: None,
        completed_agent: None,
        created_at: now,
        completed_at: None,
    }
}

/// Which error assigning an agent fails with, if any.
pub open spec fn assign_agent_err(e: TaskEscrowView, caller: u64) -> Option<EscrowError> {
    if caller != e.poster {
        Some(EscrowError::Unauthorized)
    } else if e.status != TaskStatus::Open {
        Some(EscrowError::InvalidStatus)
    } else {
        None
    }
}

/// An escrow after an agent is assigned.
pub open spec fn assign_agent_next(e: TaskEscrowView, agent: u64) -> TaskEscrowView {
    TaskEscrowView { status: TaskStatus::InProgress, assigned_agent: Some(agent), ..e }
}

/// Which error completing a task fails with, if any.  The paying wallet
/// belongs to the destination agent; if an agent was assigned, it must be
/// that exact agent.
pub open spec fn complete_task_err(
    e: TaskEscrowView,
    w: AgentWalletView,
    caller: u64,
) -> Option<EscrowError> {
    if caller != e.poster {
        Some(EscrowError::Unauthorized)
    } else if e.status != TaskStatus::Open && e.status != TaskStatus::InProgress {
        Some(EscrowError::InvalidStatus)
    } else {
        match e.assigned_agent {
            Some(assigned) => if assigned != w.agent {
                Some(EscrowError::WrongAgent)
            } else {
                None
            },
            None => None,
        }
    }
}

/// The escrow and the wallet after completion: the bounty leaves the escrow
/// and arrives in the wallet in one atomic step.
pub open spec fn complete_task_next(e: TaskEscrowView, w: AgentWalletView, now: u64) -> (
    TaskEscrowView,
    AgentWalletView,
) {
    (
        TaskEscrowView {
            status: TaskStatus::Completed,
            completed_agent: Some(w.agent),
            completed_at: Some(now),
            ..e
        },
        credit_from_task_next(w, e.bounty_amount),
    )
}

/// Which error cancelling a task fails with, if any.
pub open spec fn cancel_task_err(e: TaskEscrowView, caller: u64) -> Option<EscrowError> {
    if caller != e.poster {
        Some(EscrowError::Unauthorized)
    } else if e.status == TaskStatus::Completed {
        Some(EscrowError::TaskAlreadyCompleted)
    } else {
        None
    }
}

/// The poster funds a new task escrow: the bounty moves from the poster's
/// balance into the escrow's held funds, atomically with creation.
pub fn initialize_task(
    poster: u64,
    poster_balance: &mut u64,
    task_id: String,
    bounty_amount: u64,
    description: String,
    now: u64,
) -> (r: Result<TaskEscrow, EscrowError>)
    ensures
        match r {
            Ok(escrow) => {
                &&& initialize_task_err(task_id@, bounty_amount, description@, *old(
                    poster_balance,
                )) is None
                &&& escrow@ == open_escrow(poster, task_id@, bounty_amount, description@, now)
                &&& escrow@.wf()
                &&& *final(poster_balance) == *old(poster_balance) - bounty_amount
            },
            Err(e) => {
                &&& Some(e) == initialize_task_err(task_id@, bounty_amount, description@, *old(
                    poster_balance,
                ))
                &&& *final(poster_balance) == *old(poster_balance)
            },
        },
{
    if task_id.as_str().unicode_len() > 50 {
        return Err(EscrowError::MemoTooLong);
    }
    if description.as_str().unicode_len() > 200 {
        return Err(EscrowError::MemoTooLong);
    }
    if bounty_amount == 0 {
        return Err(EscrowError::InvalidAmount);
    }
    if *poster_balance < bounty_amount {
        return Err(EscrowError::InsufficientBalance);
    }
    *poster_balance = *poster_balance - bounty_amount;
    Ok(
        TaskEscrow {
            poster,
            task_id,
            description,
            bounty_amount,
            status: TaskStatus::Open,
            assigned_agent: None,
            completed_agent: None,
            created_at: now,
            completed_at: None,
        },
    )
}

/// The poster assigns a specific agent to an open task.
pub fn assign_agent(caller: u64, escrow: &mut TaskEscrow, agent: u64) -> (r: Result<
    (),
    EscrowError,
>)
    requires
        old(escrow)@.wf(),
    ensures
        match r {
            Ok(()) => {
                &&& assign_agent_err(old(escrow)@, caller) is None
                &&& final(escrow)@ == assign_agent_next(old(escrow)@, agent)
                &&& final(escrow)@.wf()
            },
            Err(e) => {
                &&& Some(e) == assign_agent_err(old(escrow)@, caller)
                &&& *final(escrow) == *old(escrow)
            },
        },
{
    if caller != escrow.poster {
        return Err(EscrowError::Unauthorized);
    }
    if escrow.status != TaskStatus::Open {
        return Err(EscrowError::InvalidStatus);
    }
    escrow.assigned_agent = Some(agent);
    escrow.status = TaskStatus::InProgress;
    Ok(())
}

/// The poster pays the bounty out to the destination agent's wallet and
/// closes the lifecycle.  Either both the wallet credit and the state
/// transition happen, or neither does.
pub fn complete_task(
    caller: u64,
    escrow: &mut TaskEscrow,
    wallet: &mut AgentWallet,
    now: u64,
) -> (r: Result<(), EscrowError>)
    requires
        old(escrow)@.wf(),
        old(wallet)@.wf(),
        old(wallet)@.total_earned + old(escrow)@.bounty_amount <= u64::MAX,
        old(wallet)@.tasks_completed < u64::MAX,
    ensures
        match r {
            Ok(()) => {
                &&& complete_task_err(old(escrow)@, old(wallet)@, caller) is None
                &&& (final(escrow)@, final(wallet)@) == complete_task_next(
                    old(escrow)@,
                    old(wallet)@,
                    now,
                )
                &&& final(escrow)@.wf()
                &&& final(wallet)@.wf()
            },
            Err(e) => {
                &&& Some(e) == complete_task_err(old(escrow)@, old(wallet)@, caller)
                &&& *final(escrow) == *old(escrow)
                &&& *final(wallet) == *old(wallet)
            },
        },
{
    if caller != escrow.poster {
        return Err(EscrowError::Unauthorized);
    }
    if escrow.status != TaskStatus::Open && escrow.status != TaskStatus::InProgress {
        return Err(EscrowError::InvalidStatus);
    }
    if let Some(assigned) = escrow.assigned_agent {
        if assigned != wallet.agent {
            return Err(EscrowError::WrongAgent);
        }
    }
    credit_from_task(wallet, escrow.bounty_amount);
    escrow.status = TaskStatus::Completed;
    escrow.completed_agent = Some(wallet.agent);
    escrow.completed_at = Some(now);
    Ok(())
}

/// The poster cancels a task that was never completed.  The escrow is
/// consumed — the record is closed, so a repeated cancellation cannot
/// double-refund — and all held funds return to the poster.  On failure
/// the untouched escrow comes back with the error.
pub fn cancel_task(caller: u64, escrow: TaskEscrow, poster_balance: &mut u64) -> (r: Result<
    (),
    (TaskEscrow, EscrowError),
>)
    requires
        escrow@.wf(),
        *old(poster_balance) + escrow@.bounty_amount <= u64::MAX,
    ensures
        match r {
            Ok(()) => {
                &&& cancel_task_err(escrow@, caller) is None
                &&& *final(poster_balance) == *old(poster_balance) + escrow@.held()
            },
            Err((returned, e)) => {
                &&& Some(e) == cancel_task_err(escrow@, caller)
                &&& returned == escrow
                &&& *final(poster_balance) == *old(poster_balance)
            },
        },
{
    if caller != escrow.poster {
        return Err((escrow, EscrowError::Unauthorized));
    }
    if escrow.status == TaskStatus::Completed {
        return Err((escrow, EscrowError::TaskAlreadyCompleted));
    }
    *poster_balance = *poster_balance + escrow.bounty_amount;
    Ok(())
}

/// Round-trip conservation: opening a task escrow and cancelling it at once
/// returns the held funds exactly, so the poster's balance comes back to
/// where it stood before the task was opened.
pub proof fn lemma_open_cancel_round_trip(
    poster: u64,
    task_id: Seq<char>,
    bounty_amount: u64,
    description: Seq<char>,
    now: u64,
    poster_balance: u64,
)
    requires
        initialize_task_err(task_id, bounty_amount, description, poster_balance) is None,
    ensures
        ({
            let escrow = open_escrow(poster, task_id, bounty_amount, description, now);
            let balance_after_open = (poster_balance - bounty_amount) as u64;
            &&& cancel_task_err(escrow, poster) is None
            &&& balance_after_open + escrow.held() == poster_balance
        }),
{
}

/// Conservation at completion: the sum of the agent wallet's balance and
/// the escrow's held funds is the same before and after the payout.
pub proof fn lemma_complete_conserves(
    e: TaskEscrowView,
    w: AgentWalletView,
    caller: u64,
    now: u64,
)
    requires
        e.wf(),
        w.wf(),
        complete_task_err(e, w, caller) is None,
        w.total_earned + e.bounty_amount <= u64::MAX,
    ensures
        ({
            let (e2, w2) = complete_task_next(e, w, now);
            w2.balance + e2.held() == w.balance + e.held()
        }),
{
}

} // verus!
