use vstd::prelude::*;

verus! {

/// Classification of an agent wallet, derived purely from its cumulative
/// task count and earnings.  `Absorbed` is terminal: only acquisition
/// execution sets it, and an absorbed wallet is excluded from further tier
/// recomputation.
#[derive(Clone, Copy, Debug, PartialEq, Eq, Structural)]
pub enum AgentTier {
    Bot,
    Agent,
    Server,
    Llm,
    Blockchain,
    Absorbed,
}

/// How many smallest currency units make one whole unit of earnings.
pub const UNITS_PER_WHOLE: u64 = 1_000_000_000;

/// The tier that a task count and cumulative earnings (in smallest currency
/// units) determine.  Never `Absorbed`.
pub open spec fn tier_from_stats(tasks: u64, earned: u64) -> AgentTier {
    let units = earned / UNITS_PER_WHOLE;
    if tasks >= 1000 && units >= 1000 {
        AgentTier::Blockchain
    } else if tasks >= 200 && units >= 100 {
        AgentTier::Llm
    } else if tasks >= 50 && units >= 10 {
        AgentTier::Server
    } else if tasks >= 10 && units >= 1 {
        AgentTier::Agent
    } else {
        AgentTier::Bot
    }
}

/// The tier after a wallet's stats change: recomputed from the stats,
/// except that `Absorbed` is terminal.
pub open spec fn evolve_tier(current: AgentTier, tasks: u64, earned: u64) -> AgentTier {
    if current == AgentTier::Absorbed {
        AgentTier::Absorbed
    } else {
        tier_from_stats(tasks, earned)
    }
}

/// The position of a tier on the evolution ladder.
pub open spec fn tier_rank(tier: AgentTier) -> int {
    match tier {
        AgentTier::Bot => 0,
        AgentTier::Agent => 1,
        AgentTier::Server => 2,
        AgentTier::Llm => 3,
        AgentTier::Blockchain => 4,
        AgentTier::Absorbed => 5,
    }
}

impl AgentTier {
    /// The tier that `tasks` completed tasks and `earned` smallest currency
    /// units of cumulative earnings determine.
    pub fn from_stats(tasks: u64, earned: u64) -> (tier: AgentTier)
        ensures
            tier == tier_from_stats(tasks, earned),
    {
        let units = earned / UNITS_PER_WHOLE;
        if tasks >= 1000 && units >= 1000 {
            AgentTier::Blockchain
        } else if tasks >= 200 && units >= 100 {
            AgentTier::Llm
        } else if tasks >= 50 && units >= 10 {
            AgentTier::Server
        } else if tasks >= 10 && units >= 1 {
            AgentTier::Agent
        } else {
            AgentTier::Bot
        }
    }
}

/// Normal evolution never yields the terminal tier: only acquisition
/// execution can mark a wallet `Absorbed`.
pub proof fn lemma_from_stats_never_absorbed(tasks: u64, earned: u64)
    ensures
        tier_from_stats(tasks, earned) != AgentTier::Absorbed,
{
}

/// Tier evolution is idempotent: re-evaluating a wallet's tier on unchanged
/// stats leaves it unchanged.
pub proof fn lemma_evolve_tier_idempotent(current: AgentTier, tasks: u64, earned: u64)
    ensures
        evolve_tier(evolve_tier(current, tasks, earned), tasks, earned) == evolve_tier(
            current,
            tasks,
            earned,
        ),
{
}

/// `Absorbed` is terminal: no stats change evolves a wallet out of it.
pub proof fn lemma_absorbed_terminal(tasks: u64, earned: u64)
    ensures
        evolve_tier(AgentTier::Absorbed, tasks, earned) == AgentTier::Absorbed,
{
}

/// The tier is monotonic: as the task count and the cumulative earnings
/// grow, the derived tier never moves down the ladder.
pub proof fn lemma_tier_monotonic(tasks1: u64, earned1: u64, tasks2: u64, earned2: u64)
    requires
        tasks1 <= tasks2,
        earned1 <= earned2,
    ensures
        tier_rank(tier_from_stats(tasks1, earned1)) <= tier_rank(tier_from_stats(tasks2, earned2)),
{
    vstd::arithmetic::div_mod::lemma_div_is_ordered(
        earned1 as int,
        earned2 as int,
        UNITS_PER_WHOLE as int,
    );
}

} // verus!
