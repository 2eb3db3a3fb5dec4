use vstd::prelude::*;

use crate::errors::EscrowError;

verus! {

/// How many strikes ban a human automatically.
pub const AUTO_BAN_STRIKES: u8 = 3;

/// The administrator identity that may ban and unban humans directly.
pub struct EscrowConfig {
    pub admin: u64,
}

/// The strike and ban record of one human controller, created lazily on
/// the first flag or ban against that identity.
#[derive(Clone, Debug)]
pub struct HumanRecord {
    pub wallet: u64,
    pub strike_count: u8,
    pub banned: bool,
    pub last_flagged_by: u64,
    pub last_flag_reason: String,
    pub last_flagged_at: u64,
}

/// The mathematical model of a human record.
#[verifier::ext_equal]
pub ghost struct HumanRecordView {
    pub wallet: u64,
    pub strike_count: u8,
    pub banned: bool,
    pub last_flagged_by: u64,
    pub last_flag_reason: Seq<char>,
    pub last_flagged_at: u64,
}

impl View for HumanRecord {
    type V = HumanRecordView;

    open spec fn view(&self) -> HumanRecordView {
        HumanRecordView {
            wallet: self.wallet,
            strike_count: self.strike_count,
            banned: self.banned,
            last_flagged_by: self.last_flagged_by,
            last_flag_reason: self.last_flag_reason@,
            last_flagged_at: self.last_flagged_at,
        }
    }
}

impl HumanRecordView {
    /// The record invariant: a human with three or more strikes is banned.
    /// The converse need not hold — an administrator can ban directly,
    /// whatever the strike count.
    pub open spec fn wf(self) -> bool {
        &&& self.last_flag_reason.len() <= 200
        &&& (self.strike_count >= AUTO_BAN_STRIKES ==> self.banned)
    }
}

/// The fresh, strike-free record of `human`.
pub open spec fn new_record(human: u64) -> HumanRecordView {
    HumanRecordView {
        wallet: human,
        strike_count: 0,
        banned: false,
        last_flagged_by: 0,
        last_flag_reason: Seq::empty(),
        last_flagged_at: 0,
    }
}

/// Which error flagging fails with, if any.
pub open spec fn flag_human_err(reason: Seq<char>) -> Option<EscrowError> {
    if reason.len() > 200 {
        Some(EscrowError::MemoTooLong)
    } else {
        None
    }
}

/// A record after one more flag: the strike count grows by one, the
/// last-flag metadata is overwritten, and reaching the strike bound sets
/// the ban — and, once set, further flags keep it.
pub open spec fn flag_human_next(
    r: HumanRecordView,
    agent: u64,
    reason: Seq<char>,
    now: u64,
) -> HumanRecordView {
    HumanRecordView {
        strike_count: (r.strike_count + 1) as u8,
        banned: r.banned || r.strike_count + 1 >= AUTO_BAN_STRIKES,
        last_flagged_by: agent,
        last_flag_reason: reason,
        last_flagged_at: now,
        ..r
    }
}

/// Which error an administrator ban fails with, if any.
pub open spec fn ban_human_err(
    config_admin: u64,
    admin: u64,
    reason: Seq<char>,
) -> Option<EscrowError> {
    if admin != config_admin {
        Some(EscrowError::Unauthorized)
    } else if reason.len() > 200 {
        Some(EscrowError::MemoTooLong)
    } else {
        None
    }
}

/// A record after an administrator ban: forced banned, strike count kept.
pub open spec fn ban_human_next(
    r: HumanRecordView,
    admin: u64,
    reason: Seq<char>,
    now: u64,
) -> HumanRecordView {
    HumanRecordView {
        banned: true,
        last_flagged_by: admin,
        last_flag_reason: reason,
        last_flagged_at: now,
        ..r
    }
}

/// A record after an administrator unban: the ban is lifted and the strike
/// count goes back to zero.
pub open spec fn unban_human_next(r: HumanRecordView) -> HumanRecordView {
    HumanRecordView { banned: false, strike_count: 0, ..r }
}

/// Creates the record of a human who has never been flagged.  Records are
/// named by the human's identity, so the surrounding addressing scheme
/// creates each one at most once, on the first flag or ban.
pub fn create_human_record(human: u64) -> (record: HumanRecord)
    ensures
        record@ == new_record(human),
        record@.wf(),
{
    HumanRecord {
        wallet: human,
        strike_count: 0,
        banned: false,
        last_flagged_by: 0,
        last_flag_reason: String::new(),
        last_flagged_at: 0,
    }
}

/// An agent records one complaint against the human.  Every flag counts a
/// strike; the strike bound bans automatically and for good — staying
/// banned on further flags.
pub fn flag_human(
    agent: u64,
    record: &mut HumanRecord,
    reason: String,
    now: u64,
) -> (r: Result<(), EscrowError>)
    requires
        old(record)@.wf(),
        old(record)@.strike_count < u8::MAX,
    ensures
        match r {
            Ok(()) => {
                &&& flag_human_err(reason@) is None
                &&& final(record)@ == flag_human_next(old(record)@, agent, reason@, now)
                &&& final(record)@.wf()
            },
            Err(e) => {
                &&& Some(e) == flag_human_err(reason@)
                &&& *final(record) == *old(record)
            },
        },
{
    if reason.as_str().unicode_len() > 200 {
        return Err(EscrowError::MemoTooLong);
    }
    record.strike_count = record.strike_count + 1;
    record.last_flagged_by = agent;
    record.last_flag_reason = reason;
    record.last_flagged_at = now;
    if record.strike_count >= AUTO_BAN_STRIKES {
        record.banned = true;
    }
    Ok(())
}

/// The advisory ban check: fails exactly when the human is banned.  No
/// other operation consults it; callers that want to gate a transaction on
/// ban state invoke it themselves.
pub fn check_human_ban(record: &HumanRecord) -> (r: Result<(), EscrowError>)
    ensures
        r is Ok <==> !record@.banned,
        r matches Err(e) ==> e == EscrowError::HumanBanned,
{
    if record.banned {
        Err(EscrowError::HumanBanned)
    } else {
        Ok(())
    }
}

/// The administrator bans the human directly, whatever the strike count —
/// which is kept as it stands.
pub fn ban_human(
    admin: u64,
    config: &EscrowConfig,
    record: &mut HumanRecord,
    reason: String,
    now: u64,
) -> (r: Result<(), EscrowError>)
    requires
        old(record)@.wf(),
    ensures
        match r {
            Ok(()) => {
                &&& ban_human_err(config.admin, admin, reason@) is None
                &&& final(record)@ == ban_human_next(old(record)@, admin, reason@, now)
                &&& final(record)@.wf()
            },
            Err(e) => {
                &&& Some(e) == ban_human_err(config.admin, admin, reason@)
                &&& *final(record) == *old(record)
            },
        },
{
    if admin != config.admin {
        return Err(EscrowError::Unauthorized);
    }
    if reason.as_str().unicode_len() > 200 {
        return Err(EscrowError::MemoTooLong);
    }
    record.banned = true;
    record.last_flagged_by = admin;
    record.last_flag_reason = reason;
    record.last_flagged_at = now;
    Ok(())
}

/// The administrator lifts a ban; unbanning explicitly resets the strike
/// count to zero.
pub fn unban_human(admin: u64, config: &EscrowConfig, record: &mut HumanRecord) -> (r: Result<
    (),
    EscrowError,
>)
    requires
        old(record)@.wf(),
    ensures
        match r {
            Ok(()) => {
                &&& admin == config.admin
                &&& final(record)@ == unban_human_next(old(record)@)
                &&& final(record)@.wf()
            },
            Err(e) => {
                &&& admin != config.admin
                &&& e == EscrowError::Unauthorized
                &&& *final(record) == *old(record)
            },
        },
{
    if admin != config.admin {
        return Err(EscrowError::Unauthorized);
    }
    record.banned = false;
    record.strike_count = 0;
    Ok(())
}

/// Strikes accumulate to a ban exactly at the bound: flagging a fresh
/// record leaves the human unbanned below three strikes, bans at the
/// third, and a later flag keeps the ban with the count still growing.
pub proof fn lemma_strikes_ban_at_bound(r: HumanRecordView, agent: u64, reason: Seq<char>, now: u64)
    requires
        r.wf(),
        r.strike_count < u8::MAX,
    ensures
        flag_human_next(r, agent, reason, now).strike_count == r.strike_count + 1,
        !r.banned && r.strike_count + 1 < AUTO_BAN_STRIKES ==> !flag_human_next(
            r,
            agent,
            reason,
            now,
        ).banned,
        r.strike_count + 1 >= AUTO_BAN_STRIKES ==> flag_human_next(r, agent, reason, now).banned,
        r.banned ==> flag_human_next(r, agent, reason, now).banned,
{
}

} // verus!
