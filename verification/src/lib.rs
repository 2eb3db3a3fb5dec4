//! An agent-economy ledger.
//!
//! The library tracks task bounties held in escrow until payout or
//! cancellation, per-agent spendable balances with a tier derived from
//! cumulative work, a dual-signature protocol by which one agent wallet
//! absorbs another with the consent of both controlling humans, and a
//! strike-based trust record for the humans behind agents.
//!
//! Every operation is a single atomic state transition on the records the
//! caller supplies, together with the plain balances of the external
//! accounts it touches.  Moving funds between addressable accounts, naming
//! records by stable keys, and reading the clock belong to the surrounding
//! runtime: callers hand each operation the records it names and the
//! current time, and the contracts say exactly how the records and
//! balances change.

pub mod acquisition;
pub mod errors;
pub mod task;
pub mod tier;
pub mod trust;
pub mod wallet;
