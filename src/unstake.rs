use vstd::prelude::*;
use vstd::arithmetic::div_mod::lemma_fundamental_div_mod_converse;
use crate::custody::{custody_handle, key_view};
use crate::stake::handle_of;
use crate::state::{releases, Key, LockAction, StakeAccount, StakeConfig, StakeError, UserAccount};

verus! {

/// Whole days from `staked_at` to `now`, rounded down.
pub open spec fn days_between(staked_at: i64, now: i64) -> int {
    (now - staked_at) / 86400
}

/// Whole days of custody from `staked_at` to `now`, rounded down (a
/// negative count when `now` lies before `staked_at`).
pub fn elapsed_days(staked_at: i64, now: i64) -> (r: i64)
    ensures
        r == days_between(staked_at, now),
{
    let diff: i128 = now as i128 - staked_at as i128;
    if diff >= 0 {
        let m: u128 = diff as u128;
        let q: u128 = m / 86400;
        proof {
            lemma_fundamental_div_mod_converse(diff as int, 86400, q as int, (m % 86400) as int);
        }
        q as i64
    } else {
        let m: u128 = (-diff) as u128;
        let q: u128 = (m - 1) / 86400;
        proof {
            let rem: int = ((m - 1) % 86400) as int;
            lemma_fundamental_div_mod_converse(
                diff as int,
                86400,
                -(q as int) - 1,
                86399 - rem,
            );
        }
        -(q as i64) - 1
    }
}

/// Reward points for `days` days of custody at `points_per_stake` points a
/// day, when the product fits the points counter.
pub fn points_earned(days: u64, points_per_stake: u8) -> (r: Option<u32>)
    ensures
        days * points_per_stake <= u32::MAX ==> r == Some((days * points_per_stake) as u32),
        days * points_per_stake > u32::MAX ==> r is None,
{
    if days > u32::MAX as u64 {
        if points_per_stake == 0 {
            proof {
                assert(days * points_per_stake == 0) by (nonlinear_arith)
                    requires points_per_stake == 0;
            }
            return Some(0);
        }
        proof {
            assert(days * points_per_stake >= days * 1) by (nonlinear_arith)
                requires points_per_stake >= 1;
        }
        return None;
    }
    proof {
        assert(days * points_per_stake <= 0xffff_ffff * 255) by (nonlinear_arith)
            requires days <= 0xffff_ffff, points_per_stake <= 255;
    }
    let p: u64 = days * (points_per_stake as u64);
    if p > u32::MAX as u64 {
        None
    } else {
        Some(p as u32)
    }
}

/// The records that one unstake request reads and writes.
#[derive(Clone, Copy, Debug)]
pub struct Unstake {
    /// The user who asks for the release.
    pub user: Key,
    /// The id of this program, from which custody handles are derived.
    pub program: Key,
    /// The identity of the configuration record.
    pub config_key: Key,
    pub config: StakeConfig,
    pub user_account: UserAccount,
    /// The custody record to release; emptied when the release succeeds.
    pub stake_account: Option<StakeAccount>,
}

/// The custody handle that the record of an unstake request answers to.
pub open spec fn release_handle(pre: Unstake) -> Option<Seq<u8>> {
    match pre.stake_account {
        Some(rec) => handle_of(pre.program, pre.config_key, pre.user, rec.bump),
        None => None,
    }
}

/// The outcome at time `now` of an unstake request whose custody handle
/// derived to `handle`: the records afterwards, and the handle that signs the
/// release, or the reason for refusal.
pub open spec fn unstake_spec(pre: Unstake, handle: Option<Seq<u8>>, now: i64) -> (
    Unstake,
    Result<Seq<u8>, StakeError>,
) {
    match pre.stake_account {
        None => (pre, Err(StakeError::NotStaked)),
        Some(rec) => {
            let days = days_between(rec.staked_at, now);
            let earned = days * pre.config.points_per_stake;
            if rec.owner@ != pre.user@ {
                (pre, Err(StakeError::NotOwner))
            } else if days <= pre.config.freeze_period {
                (pre, Err(StakeError::FreezePeriodNotPassed))
            } else if pre.user_account.points + earned > u32::MAX {
                (pre, Err(StakeError::ArithmeticOverflow))
            } else if pre.user_account.amount_staked == 0 {
                (pre, Err(StakeError::Underflow))
            } else if handle is None {
                (pre, Err(StakeError::InvalidCustody))
            } else {
                (
                    Unstake {
                        user_account: UserAccount {
                            points: (pre.user_account.points + earned) as u32,
                            amount_staked: (pre.user_account.amount_staked - 1) as u8,
                            ..pre.user_account
                        },
                        stake_account: None,
                        ..pre
                    },
                    Ok(handle->Some_0),
                )
            }
        },
    }
}

impl Unstake {
    /// Releases the custody record at time `now`: credits the reward for the
    /// whole days of custody, uncounts the record and removes it, and returns
    /// the registry instructions, signed by the custody handle recomputed from
    /// the configuration, the user and the record's bump, that the host must
    /// carry out in the same transaction. On refusal nothing changes.
    pub fn unstake(&mut self, now: i64) -> (r: Result<Vec<LockAction>, StakeError>)
        ensures
            ({
                let (post, res) = unstake_spec(*old(self), release_handle(*old(self)), now);
                &&& *final(self) == post
                &&& match (r, res) {
                    (Ok(v), Ok(h)) => releases(v@, old(self).stake_account.unwrap().mint@, h),
                    (Err(e), Err(f)) => e == f,
                    _ => false,
                }
            }),
            old(self).stake_account is Some && old(self).stake_account.unwrap().owner@
                != old(self).user@ ==> r is Err && r->Err_0 == StakeError::NotOwner && *final(self)
                == *old(self),
            old(self).stake_account is Some && old(self).stake_account.unwrap().owner@
                == old(self).user@ && days_between(old(self).stake_account.unwrap().staked_at, now)
                <= old(self).config.freeze_period ==> r is Err && r->Err_0
                == StakeError::FreezePeriodNotPassed && *final(self) == *old(self),
    {
        let handle = match self.stake_account {
            Some(rec) => custody_handle(&self.program, &self.config_key, &self.user, rec.bump),
            None => None,
        };
        self.unstake_with_handle(handle, now)
    }

    /// Releases the custody record as `unstake` does, given the custody
    /// handle that the record's seeds derived to (`None` where they gave none).
    pub fn unstake_with_handle(&mut self, handle: Option<Key>, now: i64) -> (r: Result<
        Vec<LockAction>,
        StakeError,
    >)
        ensures
            ({
                let (post, res) = unstake_spec(*old(self), key_view(handle), now);
                &&& *final(self) == post
                &&& match (r, res) {
                    (Ok(v), Ok(h)) => releases(v@, old(self).stake_account.unwrap().mint@, h),
                    (Err(e), Err(f)) => e == f,
                    _ => false,
                }
            }),
    {
        let rec = match self.stake_account {
            None => {
                return Err(StakeError::NotStaked);
            },
            Some(rec) => rec,
        };
        if !rec.owner.same(&self.user) {
            return Err(StakeError::NotOwner);
        }
        let days = elapsed_days(rec.staked_at, now);
        if days <= self.config.freeze_period as i64 {
            return Err(StakeError::FreezePeriodNotPassed);
        }
        let earned = match points_earned(days as u64, self.config.points_per_stake) {
            None => {
                return Err(StakeError::ArithmeticOverflow);
            },
            Some(p) => p,
        };
        if earned > u32::MAX - self.user_account.points {
            return Err(StakeError::ArithmeticOverflow);
        }
        if self.user_account.amount_staked == 0 {
            return Err(StakeError::Underflow);
        }
        let custody = match handle {
            None => {
                return Err(StakeError::InvalidCustody);
            },
            Some(k) => k,
        };
        self.user_account.points = self.user_account.points + earned;
        self.user_account.amount_staked = self.user_account.amount_staked - 1;
        self.stake_account = None;
        let mut actions: Vec<LockAction> = Vec::new();
        actions.push(LockAction::Thaw { asset: rec.mint, delegate: custody });
        actions.push(LockAction::Revoke { asset: rec.mint });
        Ok(actions)
    }
}

} // verus!
