//! The withdrawal operation.
//!
//! One invocation is a single unit of work: validate that the lock may be
//! released, compute the reward accrual, issue the two ordered custody calls,
//! and only then commit the mutation — the user's new balances and the
//! retirement of the stake record. The external calls themselves are
//! performed by the caller between the three steps:
//!
//! - [`Ledger::begin_unstake`] validates the request and computes the
//!   accrual; it mutates nothing and hands back the unlock call to issue.
//! - [`continue_after_unlock`] takes the unlock call's outcome; only on
//!   success does it hand back the capability-removal call, so the unlock
//!   call always precedes it, and a failed unlock ends the invocation with
//!   nothing committed.
//! - [`Ledger::complete_unstake`] takes the removal call's outcome; on
//!   success it applies the accrual, decrements the staked count and retires
//!   the stake record; on failure it leaves the ledger exactly as it was.

use vstd::prelude::*;
use crate::custody::{
    authority_seed_tag,
    custody_program_id,
    custody_program_id_bytes,
    derive_authority_seeds,
    RemoveLockCall,
    UnlockCall,
};
use crate::ids::AccountId;
use crate::ledger::Ledger;
use crate::math::{
    amount_after,
    elapsed_seconds,
    freeze_seconds,
    points_after,
    points_earned,
    spec_amount_after,
    spec_elapsed,
    spec_freeze_seconds,
    spec_points_after,
    spec_points_earned,
    SECONDS_PER_DAY,
};
use crate::state::{UserAccount, UserEntry};

verus! {

/// Why an unstake invocation was rejected.
#[derive(Clone, Copy, Debug, PartialEq, Eq, Structural)]
pub enum UnstakeError {
    /// Policy violation: the freeze period has not yet elapsed. The caller
    /// may retry once enough time has passed.
    FreezePeriodNotPassed,
    /// The supplied records do not resolve to their expected derived
    /// identities: no stake record for the asset, a record owned by another
    /// user, a missing user account or collection record, or a custody
    /// program other than the known one.
    DerivationMismatch,
    /// The external custody service refused one of the two calls.
    CustodyRejected,
}

/// How far an invocation has progressed through the custody protocol.
#[derive(Clone, Copy, Debug, PartialEq, Eq, Structural)]
pub enum UnstakePhase {
    /// The unlock call has been handed out; its outcome is awaited.
    AwaitingUnlock,
    /// The unlock call succeeded and the capability-removal call has been
    /// handed out; its outcome is awaited.
    AwaitingRemoval,
}

/// One unstake request: the caller, the asset to withdraw, its collection,
/// the identity presented as the custody program, and the current time.
#[derive(Clone, Copy, Debug)]
pub struct UnstakeRequest {
    /// The caller, who must own the stake record.
    pub user: AccountId,
    /// The asset to withdraw.
    pub asset: AccountId,
    /// The collection the asset belongs to.
    pub collection: AccountId,
    /// The identity presented as the custody program; must equal the known
    /// fixed identity.
    pub core_program: AccountId,
    /// The wall-clock reading for this invocation.
    pub now: i64,
}

/// The in-flight state of one invocation between the custody calls: the
/// validated identities, the record and account indices, and the accrual
/// already computed but not yet committed.
#[derive(Clone, Copy, Debug)]
pub struct UnstakeSession {
    /// The caller.
    pub user: AccountId,
    /// The asset being withdrawn.
    pub asset: AccountId,
    /// The collection the asset belongs to.
    pub collection: AccountId,
    /// Index of the stake record in the ledger.
    pub record_index: usize,
    /// Index of the caller's account entry in the ledger.
    pub user_index: usize,
    /// Points earned by this withdrawal.
    pub points_earned: i64,
    /// The caller's points counter after the accrual is applied.
    pub new_points: u32,
    /// The caller's staked count after the withdrawal is applied.
    pub new_amount_staked: u8,
    /// Progress through the custody protocol.
    pub phase: UnstakePhase,
}

/// What a completed withdrawal reports back.
#[derive(Clone, Copy, Debug, PartialEq, Eq, Structural)]
pub struct UnstakeReceipt {
    /// Points earned by this withdrawal.
    pub points_earned: i64,
    /// The user's points counter after the withdrawal.
    pub points: u32,
    /// The user's staked count after the withdrawal.
    pub amount_staked: u8,
}

/// Whether the request's records resolve: the custody program is the known
/// one, the asset has a stake record owned by the caller, and the caller and
/// collection have their records.
pub open spec fn spec_accounts_resolve(l: Ledger, req: UnstakeRequest) -> bool {
    &&& req.core_program@ == custody_program_id_bytes()
    &&& l.spec_has_record(req.asset@)
    &&& l.spec_record(req.asset@).owner@ == req.user@
    &&& l.spec_has_user(req.user@)
    &&& l.spec_has_collection(req.collection@)
}

/// The elapsed time of a request: now minus the record's deposit time,
/// clamped to be non-negative.
pub open spec fn spec_elapsed_of(l: Ledger, req: UnstakeRequest) -> int {
    spec_elapsed(req.now as int, l.spec_record(req.asset@).staked_at as int)
}

/// Whether the freeze period has elapsed for a request.
pub open spec fn spec_freeze_passed(l: Ledger, req: UnstakeRequest) -> bool {
    spec_elapsed_of(l, req) >= spec_freeze_seconds(l.config.freeze_period as int)
}

/// The validation outcome of a request: a mismatch of the supplied records
/// is reported before the time gate, and a request that passes both is
/// admitted.
pub open spec fn spec_validation(l: Ledger, req: UnstakeRequest) -> Option<UnstakeError> {
    if !spec_accounts_resolve(l, req) {
        Some(UnstakeError::DerivationMismatch)
    } else if !spec_freeze_passed(l, req) {
        Some(UnstakeError::FreezePeriodNotPassed)
    } else {
        None
    }
}

/// The points an admitted request earns: whole elapsed days times the
/// per-day rate.
pub open spec fn spec_points_earned_of(l: Ledger, req: UnstakeRequest) -> int {
    spec_points_earned(spec_elapsed_of(l, req), l.config.points_per_stake as int)
}

/// The session an admitted request gives rise to.
pub open spec fn spec_session_of(l: Ledger, req: UnstakeRequest) -> UnstakeSession {
    UnstakeSession {
        user: req.user,
        asset: req.asset,
        collection: req.collection,
        record_index: l.spec_record_index(req.asset@) as usize,
        user_index: l.spec_user_index(req.user@) as usize,
        points_earned: spec_points_earned_of(l, req) as i64,
        new_points: spec_points_after(
            l.spec_user(req.user@).account.points as int,
            spec_points_earned_of(l, req),
        ) as u32,
        new_amount_staked: spec_amount_after(
            l.spec_user(req.user@).account.amount_staked as int,
        ) as u8,
        phase: UnstakePhase::AwaitingUnlock,
    }
}

/// Whether a session's indices still name the records it was built from.
pub open spec fn session_matches(l: Ledger, s: UnstakeSession) -> bool {
    &&& (s.record_index as int) < l.records@.len()
    &&& l.records@[s.record_index as int].asset@ == s.asset@
    &&& (s.user_index as int) < l.users@.len()
    &&& l.users@[s.user_index as int].user@ == s.user@
}

/// A user entry with a session's committed balances applied.
pub open spec fn spec_updated_user(entry: UserEntry, s: UnstakeSession) -> UserEntry {
    UserEntry {
        user: entry.user,
        account: UserAccount {
            points: s.new_points,
            amount_staked: s.new_amount_staked,
            bump: entry.account.bump,
        },
    }
}

/// A request naming an asset with no stake record — as after a completed
/// withdrawal — is rejected with the derivation-mismatch error; and since a
/// rejected invocation leaves the ledger untouched, repeating the attempt on
/// the same ledger is rejected with the same error.
pub proof fn lemma_absent_record_rejected(l: Ledger, req: UnstakeRequest)
    requires
        !l.spec_has_record(req.asset@),
    ensures
        spec_validation(l, req) == Some(UnstakeError::DerivationMismatch),
{
}

/// A resolving request made before the freeze period has elapsed is rejected
/// with the policy-violation error, and with no other.
pub proof fn lemma_early_request_rejected(l: Ledger, req: UnstakeRequest)
    requires
        spec_accounts_resolve(l, req),
        spec_elapsed_of(l, req) < spec_freeze_seconds(l.config.freeze_period as int),
    ensures
        spec_validation(l, req) == Some(UnstakeError::FreezePeriodNotPassed),
{
}

/// A resolving request made once the freeze period has elapsed is admitted,
/// and the balances its session commits are exactly: points earned equal to
/// whole elapsed days times the per-day rate; a points counter grown by that
/// amount, clamped at the counter's maximum; and a staked count one lower,
/// clamped at zero.
pub proof fn lemma_timely_request_admitted(l: Ledger, req: UnstakeRequest)
    requires
        spec_accounts_resolve(l, req),
        spec_elapsed_of(l, req) >= spec_freeze_seconds(l.config.freeze_period as int),
    ensures
        spec_validation(l, req) is None,
        spec_session_of(l, req).points_earned == (spec_elapsed_of(l, req) / (SECONDS_PER_DAY
            as int)) * (l.config.points_per_stake as int),
        spec_session_of(l, req).new_points as int == spec_points_after(
            l.spec_user(req.user@).account.points as int,
            spec_points_earned_of(l, req),
        ),
        l.spec_user(req.user@).account.amount_staked == 0 ==> spec_session_of(
            l,
            req,
        ).new_amount_staked == 0,
        l.spec_user(req.user@).account.amount_staked > 0 ==> spec_session_of(
            l,
            req,
        ).new_amount_staked as int == l.spec_user(req.user@).account.amount_staked - 1,
{
    let e: int = spec_elapsed_of(l, req);
    let rate: int = l.config.points_per_stake as int;
    let earned: int = spec_points_earned_of(l, req);
    lemma_points_earned_in_range(e, rate);
    assert(earned as i64 == earned);
    let points: int = l.spec_user(req.user@).account.points as int;
    assert(0 <= spec_points_after(points, earned) <= u32::MAX);
}

/// The points earned for any representable elapsed time and any per-day
/// rate fit the accrual's signed range: whole days times a byte-sized rate
/// cannot overflow.
pub proof fn lemma_points_earned_in_range(e: int, rate: int)
    requires
        0 <= e <= i64::MAX,
        0 <= rate <= 255,
    ensures
        0 <= spec_points_earned(e, rate) <= i64::MAX,
{
    let day: int = SECONDS_PER_DAY as int;
    assert(0 <= e / day <= e) by (nonlinear_arith)
        requires
            0 <= e,
            day == 86400,
    ;
    assert(e / day <= (i64::MAX as int) / day) by (nonlinear_arith)
        requires
            0 <= e <= i64::MAX,
            day == 86400,
    ;
    assert(0 <= (e / day) * rate <= ((i64::MAX as int) / day) * 255) by (nonlinear_arith)
        requires
            0 <= e / day <= (i64::MAX as int) / day,
            0 <= rate <= 255,
    ;
}

impl Ledger {
    /// Validates an unstake request and computes its accrual, mutating
    /// nothing. An admitted request yields the session and the unlock call
    /// to issue first; a rejected one yields exactly the error that
    /// `spec_validation` assigns to it.
    pub fn begin_unstake(&self, req: &UnstakeRequest) -> (r: Result<
        (UnstakeSession, UnlockCall),
        UnstakeError,
    >)
        requires
            self.wf(),
        ensures
            r is Err <==> spec_validation(*self, *req) is Some,
            r matches Err(e) ==> Some(e) == spec_validation(*self, *req),
            r matches Ok(p) ==> {
                &&& p.0 == spec_session_of(*self, *req)
                &&& session_matches(*self, p.0)
                &&& p.1.asset == req.asset
                &&& p.1.collection == req.collection
                &&& p.1.payer == req.user
                &&& p.1.frozen == false
                &&& p.1.authority_seeds@.len() == 3
                &&& p.1.authority_seeds@[0]@ == authority_seed_tag()
                &&& p.1.authority_seeds@[1]@ == req.collection@
                &&& p.1.authority_seeds@[2]@ == seq![
                    self.spec_collection(req.collection@).info.bump,
                ]
            },
    {
        let expected_core = custody_program_id();
        if !(req.core_program == expected_core) {
            return Err(UnstakeError::DerivationMismatch);
        }
        let record_index = match self.find_record(&req.asset) {
            Some(i) => i,
            None => {
                return Err(UnstakeError::DerivationMismatch);
            },
        };
        proof {
            self.lemma_record_index_unique(req.asset@, record_index as int);
        }
        let record = self.records[record_index];
        if !(record.owner == req.user) {
            return Err(UnstakeError::DerivationMismatch);
        }
        let user_index = match self.find_user(&req.user) {
            Some(i) => i,
            None => {
                return Err(UnstakeError::DerivationMismatch);
            },
        };
        proof {
            self.lemma_user_index_unique(req.user@, user_index as int);
        }
        let collection_index = match self.find_collection(&req.collection) {
            Some(i) => i,
            None => {
                return Err(UnstakeError::DerivationMismatch);
            },
        };
        proof {
            self.lemma_collection_index_unique(req.collection@, collection_index as int);
        }
        let elapsed = elapsed_seconds(req.now, record.staked_at);
        let freeze = freeze_seconds(self.config.freeze_period);
        if elapsed < freeze {
            return Err(UnstakeError::FreezePeriodNotPassed);
        }
        let earned = points_earned(elapsed, self.config.points_per_stake);
        let entry = self.users[user_index];
        let new_points = points_after(entry.account.points, earned);
        let new_amount_staked = amount_after(entry.account.amount_staked);
        let seeds = derive_authority_seeds(&req.collection, &self.collections[collection_index].info);
        let session = UnstakeSession {
            user: req.user,
            asset: req.asset,
            collection: req.collection,
            record_index,
            user_index,
            points_earned: earned,
            new_points,
            new_amount_staked,
            phase: UnstakePhase::AwaitingUnlock,
        };
        let call = UnlockCall {
            asset: req.asset,
            collection: req.collection,
            payer: req.user,
            authority_seeds: seeds,
            frozen: false,
        };
        Ok((session, call))
    }

    /// Takes the outcome of the capability-removal call and finishes the
    /// invocation. On success it commits everything at once: the caller's
    /// accrued points and decremented staked count, and the retirement of
    /// the stake record. On failure it leaves the ledger exactly as it was.
    pub fn complete_unstake(&mut self, session: &UnstakeSession, removal_succeeded: bool) -> (r:
        Result<UnstakeReceipt, UnstakeError>)
        requires
            old(self).wf(),
            session.phase == UnstakePhase::AwaitingRemoval,
            session_matches(*old(self), *session),
        ensures
            r is Ok <==> removal_succeeded,
            !removal_succeeded ==> {
                &&& r matches Err(e) && e == UnstakeError::CustodyRejected
                &&& *final(self) == *old(self)
            },
            removal_succeeded ==> {
                &&& r matches Ok(receipt) && receipt == (UnstakeReceipt {
                    points_earned: session.points_earned,
                    points: session.new_points,
                    amount_staked: session.new_amount_staked,
                })
                &&& final(self).wf()
                &&& final(self).config == old(self).config
                &&& final(self).collections == old(self).collections
                &&& final(self).records@ == old(self).records@.remove(
                    session.record_index as int,
                )
                &&& !final(self).spec_has_record(session.asset@)
                &&& final(self).users@ == old(self).users@.update(
                    session.user_index as int,
                    spec_updated_user(old(self).users@[session.user_index as int], *session),
                )
            },
    {
        if !removal_succeeded {
            return Err(UnstakeError::CustodyRejected);
        }
        let entry = self.users[session.user_index];
        let updated = UserEntry {
            user: entry.user,
            account: UserAccount {
                points: session.new_points,
                amount_staked: session.new_amount_staked,
                bump: entry.account.bump,
            },
        };
        self.users[session.user_index] = updated;
        self.records.remove(session.record_index);
        proof {
            let k: int = session.record_index as int;
            let olds = old(self).records@;
            let news = self.records@;
            assert forall|i: int, j: int| 0 <= i < j < news.len() implies (
            #[trigger] news[i]).asset@ != (#[trigger] news[j]).asset@ by {
                let oi: int = if i < k {
                    i
                } else {
                    i + 1
                };
                let oj: int = if j < k {
                    j
                } else {
                    j + 1
                };
                assert(news[i] == olds[oi]);
                assert(news[j] == olds[oj]);
            }
            assert forall|i: int| 0 <= i < news.len() implies (#[trigger] news[i]).asset@
                != session.asset@ by {
                let oi: int = if i < k {
                    i
                } else {
                    i + 1
                };
                assert(news[i] == olds[oi]);
                assert(olds[k].asset@ == session.asset@);
            }
            assert forall|i: int, j: int| 0 <= i < j < self.users@.len() implies (
            #[trigger] self.users@[i]).user@ != (#[trigger] self.users@[j]).user@ by {
                assert(self.users@[i].user == old(self).users@[i].user);
                assert(self.users@[j].user == old(self).users@[j].user);
            }
        }
        Ok(
            UnstakeReceipt {
                points_earned: session.points_earned,
                points: session.new_points,
                amount_staked: session.new_amount_staked,
            },
        )
    }
}

/// Takes the outcome of the unlock call. Only a successful unlock yields the
/// capability-removal call, so that call is always issued strictly after the
/// unlock; a failed unlock ends the invocation with the custody-rejection
/// error and nothing to issue or commit.
pub fn continue_after_unlock(session: &UnstakeSession, unlock_succeeded: bool) -> (r: Result<
    (UnstakeSession, RemoveLockCall),
    UnstakeError,
>)
    requires
        session.phase == UnstakePhase::AwaitingUnlock,
    ensures
        r is Ok <==> unlock_succeeded,
        r matches Err(e) ==> e == UnstakeError::CustodyRejected,
        r matches Ok(p) ==> {
            &&& p.0 == (UnstakeSession { phase: UnstakePhase::AwaitingRemoval, ..*session })
            &&& p.1.asset == session.asset
            &&& p.1.collection == session.collection
            &&& p.1.authority == session.user
        },
{
    if !unlock_succeeded {
        return Err(UnstakeError::CustodyRejected);
    }
    let next = UnstakeSession { phase: UnstakePhase::AwaitingRemoval, ..*session };
    let call = RemoveLockCall {
        asset: session.asset,
        collection: session.collection,
        authority: session.user,
    };
    Ok((next, call))
}

} // verus!
