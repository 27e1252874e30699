use vstd::prelude::*;
use crate::custody::{custody_handle, key_view, program_address, signer_seeds_of};
use crate::state::{freezes, Key, LockAction, StakeAccount, StakeConfig, StakeError, UserAccount};

verus! {

/// The records that one stake request reads and writes.
#[derive(Clone, Copy, Debug)]
pub struct Stake {
    /// The user who places the asset in custody.
    pub user: Key,
    /// The asset to place in custody.
    pub asset: Key,
    /// The id of this program, from which custody handles are derived.
    pub program: Key,
    /// The identity of the configuration record.
    pub config_key: Key,
    pub config: StakeConfig,
    pub user_account: UserAccount,
    /// The custody record slot; empty until the stake succeeds.
    pub stake_account: Option<StakeAccount>,
}

/// The custody handle that a record with `bump` of `user` under the
/// configuration `config_key` answers to, for the program `program`.
pub open spec fn handle_of(program: Key, config_key: Key, user: Key, bump: u8) -> Option<Seq<u8>> {
    program_address(signer_seeds_of(config_key@, user@, bump), program@)
}

/// The outcome of a stake request whose custody handle derived to `handle`:
/// the records afterwards, and the handle that the asset is to be locked
/// under, or the reason for refusal.
pub open spec fn stake_spec(pre: Stake, handle: Option<Seq<u8>>, bump: u8, now: i64) -> (
    Stake,
    Result<Seq<u8>, StakeError>,
) {
    if pre.user_account.amount_staked >= pre.config.max_stake {
        (pre, Err(StakeError::MaxStakeReached))
    } else if pre.stake_account is Some {
        (pre, Err(StakeError::AlreadyStaked))
    } else if handle is None {
        (pre, Err(StakeError::InvalidCustody))
    } else {
        (
            Stake {
                user_account: UserAccount {
                    amount_staked: (pre.user_account.amount_staked + 1) as u8,
                    ..pre.user_account
                },
                stake_account: Some(
                    StakeAccount { owner: pre.user, mint: pre.asset, staked_at: now, bump },
                ),
                ..pre
            },
            Ok(handle->Some_0),
        )
    }
}

impl Stake {
    /// Places the asset in custody at time `now`: creates the custody record
    /// with `bump`, counts it on the user's ledger, and returns the lock
    /// instruction, under the custody handle derived from the configuration,
    /// the user and `bump`, that the host must carry out in the same
    /// transaction. On refusal nothing changes.
    pub fn stake(&mut self, bump: u8, now: i64) -> (r: Result<LockAction, StakeError>)
        ensures
            ({
                let (post, res) = stake_spec(
                    *old(self),
                    handle_of(old(self).program, old(self).config_key, old(self).user, bump),
                    bump,
                    now,
                );
                &&& *final(self) == post
                &&& match (r, res) {
                    (Ok(a), Ok(h)) => freezes(a, old(self).asset@, h),
                    (Err(e), Err(f)) => e == f,
                    _ => false,
                }
            }),
            old(self).user_account.amount_staked >= old(self).config.max_stake ==> r == Err::<
                LockAction,
                StakeError,
            >(StakeError::MaxStakeReached) && *final(self) == *old(self),
    {
        let handle = custody_handle(&self.program, &self.config_key, &self.user, bump);
        self.stake_with_handle(handle, bump, now)
    }

    /// Places the asset in custody as `stake` does, given the custody handle
    /// that the seeds derived to (`None` where they gave none).
    pub fn stake_with_handle(&mut self, handle: Option<Key>, bump: u8, now: i64) -> (r: Result<
        LockAction,
        StakeError,
    >)
        ensures
            ({
                let (post, res) = stake_spec(*old(self), key_view(handle), bump, now);
                &&& *final(self) == post
                &&& match (r, res) {
                    (Ok(a), Ok(h)) => freezes(a, old(self).asset@, h),
                    (Err(e), Err(f)) => e == f,
                    _ => false,
                }
            }),
    {
        if self.user_account.amount_staked >= self.config.max_stake {
            return Err(StakeError::MaxStakeReached);
        }
        if self.stake_account.is_some() {
            return Err(StakeError::AlreadyStaked);
        }
        let custody = match handle {
            None => {
                return Err(StakeError::InvalidCustody);
            },
            Some(k) => k,
        };
        self.user_account.amount_staked = self.user_account.amount_staked + 1;
        self.stake_account = Some(
            StakeAccount { owner: self.user, mint: self.asset, staked_at: now, bump },
        );
        Ok(LockAction::Freeze { asset: self.asset, delegate: custody })
    }
}

} // verus!
