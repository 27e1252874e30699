use vstd::prelude::*;

verus! {

/// A 32-byte identity: a user, an asset, a configuration or a custody handle.
#[derive(Clone, Copy, Debug)]
pub struct Key {
    pub bytes: [u8; 32],
}

impl View for Key {
    type V = Seq<u8>;

    open spec fn view(&self) -> Seq<u8> {
        self.bytes@
    }
}

impl Key {
    pub fn new(bytes: [u8; 32]) -> (r: Key)
        ensures
            r.bytes == bytes,
    {
        Key { bytes }
    }

    /// Whether two identities hold the same bytes.
    pub fn same(&self, other: &Key) -> (r: bool)
        ensures
            r == (self@ == other@),
    {
        let mut i: usize = 0;
        while i < 32
            invariant
                0 <= i <= 32,
                self@.len() == 32,
                other@.len() == 32,
                forall|j: int| 0 <= j < i ==> self@[j] == other@[j],
            decreases 32 - i,
        {
            if self.bytes[i] != other.bytes[i] {
                return false;
            }
            i = i + 1;
        }
        proof {
            assert(self@ =~= other@);
        }
        true
    }
}

/// The deployment-wide parameters of the staking engine.
#[derive(Clone, Copy, Debug, PartialEq, Eq, Structural)]
pub struct StakeConfig {
    /// Reward points per elapsed day of custody, per asset.
    pub points_per_stake: u8,
    /// Upper bound on the simultaneous custody records of one user.
    pub max_stake: u8,
    /// Whole days an asset must stay in custody before it may be released
    /// (release needs strictly more).
    pub freeze_period: u32,
    pub bump: u8,
}

/// The counters of one user.
#[derive(Clone, Copy, Debug, PartialEq, Eq, Structural)]
pub struct UserAccount {
    /// Cumulative reward points; never decreases.
    pub points: u32,
    /// Number of live custody records of this user.
    pub amount_staked: u8,
    pub bump: u8,
}

/// The record of one asset in custody.
#[derive(Clone, Copy, Debug)]
pub struct StakeAccount {
    pub owner: Key,
    pub mint: Key,
    /// Start of custody, in seconds.
    pub staked_at: i64,
    pub bump: u8,
}

#[derive(Clone, Copy, Debug, PartialEq, Eq, Structural)]
pub enum StakeError {
    /// The user already holds `max_stake` assets in custody.
    MaxStakeReached,
    /// The asset has not been in custody for more than `freeze_period` days.
    FreezePeriodNotPassed,
    /// The custody record belongs to another user.
    NotOwner,
    /// The reward credit does not fit the points counter.
    ArithmeticOverflow,
    /// The user's stake counter is already zero.
    Underflow,
    /// A custody record already stands where a new one would be created.
    AlreadyStaked,
    /// There is no custody record to release.
    NotStaked,
    /// The configuration, the user and the bump give no custody handle.
    InvalidCustody,
}

/// An instruction for the asset registry that a successful operation asks
/// the host to carry out, in the same transaction.
#[derive(Clone, Copy, Debug)]
pub enum LockAction {
    /// Lock the asset against transfer, with `delegate` as the only
    /// authority that may clear the lock.
    Freeze { asset: Key, delegate: Key },
    /// Clear the lock, signed by the custody handle `delegate`.
    Thaw { asset: Key, delegate: Key },
    /// Remove the lock capability from the asset altogether.
    Revoke { asset: Key },
}

/// The registry's lock state of one asset: `None` when it carries no lock
/// capability, else whether it is locked and by which authority.
pub type LockState = Option<(bool, Seq<u8>)>;

/// What one registry instruction does to the lock state of `asset`; an
/// instruction that the registry refuses leaves the state as it was.
pub open spec fn apply_lock(s: LockState, asset: Seq<u8>, a: LockAction) -> LockState {
    match a {
        LockAction::Freeze { asset: x, delegate } => {
            if x@ == asset && s is None {
                Some((true, delegate@))
            } else {
                s
            }
        },
        LockAction::Thaw { asset: x, delegate } => {
            match s {
                Some((_, by)) if x@ == asset && by == delegate@ => Some((false, by)),
                _ => s,
            }
        },
        LockAction::Revoke { asset: x } => {
            match s {
                Some((false, _)) if x@ == asset => None,
                _ => s,
            }
        },
    }
}

/// `a` locks `asset` with `delegate` as the authority over the lock.
pub open spec fn freezes(a: LockAction, asset: Seq<u8>, delegate: Seq<u8>) -> bool {
    match a {
        LockAction::Freeze { asset: x, delegate: d } => x@ == asset && d@ == delegate,
        _ => false,
    }
}

/// `actions` release `asset`: clear its lock under `delegate`, then remove
/// the lock capability.
pub open spec fn releases(actions: Seq<LockAction>, asset: Seq<u8>, delegate: Seq<u8>) -> bool {
    &&& actions.len() == 2
    &&& match actions[0] {
        LockAction::Thaw { asset: x, delegate: d } => x@ == asset && d@ == delegate,
        _ => false,
    }
    &&& match actions[1] {
        LockAction::Revoke { asset: x } => x@ == asset,
        _ => false,
    }
}

/// The lock state of `asset` after a sequence of registry instructions.
pub open spec fn apply_locks(s: LockState, asset: Seq<u8>, actions: Seq<LockAction>) -> LockState
    decreases actions.len(),
{
    if actions.len() == 0 {
        s
    } else {
        apply_locks(apply_lock(s, asset, actions[0]), asset, actions.drop_first())
    }
}

/// Number of records in `records` owned by `owner`.
pub open spec fn count_owned(records: Seq<StakeAccount>, owner: Seq<u8>) -> nat
    decreases records.len(),
{
    if records.len() == 0 {
        0
    } else {
        count_owned(records.drop_last(), owner) + if records.last().owner@ == owner {
            1nat
        } else {
            0nat
        }
    }
}

} // verus!
