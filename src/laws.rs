use vstd::prelude::*;
use crate::stake::{handle_of, stake_spec, Stake};
use crate::state::{apply_locks, count_owned, freezes, releases, LockAction, StakeAccount, StakeError};
use crate::unstake::{days_between, release_handle, unstake_spec, Unstake};

verus! {

/// Appending a record adds one to its owner's count and leaves every other
/// owner's count as it was.
pub proof fn lemma_count_push(records: Seq<StakeAccount>, rec: StakeAccount, o: Seq<u8>)
    ensures
        count_owned(records.push(rec), o) == count_owned(records, o) + if rec.owner@ == o {
            1nat
        } else {
            0nat
        },
{
    assert(records.push(rec).drop_last() =~= records);
}

/// Removing the record at `i` takes one off its owner's count and leaves
/// every other owner's count as it was.
pub proof fn lemma_count_remove(records: Seq<StakeAccount>, i: int, o: Seq<u8>)
    requires
        0 <= i < records.len(),
    ensures
        count_owned(records, o) == count_owned(records.remove(i), o) + if records[i].owner@
            == o {
            1nat
        } else {
            0nat
        },
    decreases records.len(),
{
    if i == records.len() - 1 {
        assert(records.remove(i) =~= records.drop_last());
    } else {
        let rest = records.remove(i);
        assert(rest.drop_last() =~= records.drop_last().remove(i));
        assert(rest.last() == records.last());
        lemma_count_remove(records.drop_last(), i, o);
    }
}

/// A stake request keeps every user's stake counter equal to the number of
/// live custody records that user owns: `records` are the live records
/// before the request, and a successful request adds the new one.
pub proof fn lemma_stake_keeps_count(
    pre: Stake,
    handle: Option<Seq<u8>>,
    bump: u8,
    now: i64,
    records: Seq<StakeAccount>,
)
    requires
        pre.user_account.amount_staked == count_owned(records, pre.user@),
    ensures
        ({
            let (post, r) = stake_spec(pre, handle, bump, now);
            let live = if r is Ok {
                records.push(post.stake_account.unwrap())
            } else {
                records
            };
            &&& post.user_account.amount_staked == count_owned(live, pre.user@)
            &&& forall|o: Seq<u8>| o != pre.user@ ==> count_owned(live, o) == count_owned(records, o)
        }),
{
    let (post, r) = stake_spec(pre, handle, bump, now);
    if r is Ok {
        let rec = post.stake_account.unwrap();
        lemma_count_push(records, rec, pre.user@);
        assert forall|o: Seq<u8>| o != pre.user@ implies count_owned(records.push(rec), o)
            == count_owned(records, o) by {
            lemma_count_push(records, rec, o);
        }
    }
}

/// An unstake request keeps every user's stake counter equal to the number
/// of live custody records that user owns: `records` are the live records
/// before the request, `records[i]` the one to release, and a successful
/// request removes it. Under that agreement the counter never underflows.
pub proof fn lemma_unstake_keeps_count(
    pre: Unstake,
    handle: Option<Seq<u8>>,
    now: i64,
    records: Seq<StakeAccount>,
    i: int,
)
    requires
        0 <= i < records.len(),
        pre.stake_account == Some(records[i]),
        pre.user_account.amount_staked == count_owned(records, pre.user@),
    ensures
        ({
            let (post, r) = unstake_spec(pre, handle, now);
            let live = if r is Ok {
                records.remove(i)
            } else {
                records
            };
            &&& r != Err::<Seq<u8>, StakeError>(StakeError::Underflow)
            &&& post.user_account.amount_staked == count_owned(live, pre.user@)
            &&& forall|o: Seq<u8>| o != pre.user@ ==> count_owned(live, o) == count_owned(records, o)
        }),
{
    lemma_count_remove(records, i, pre.user@);
    assert forall|o: Seq<u8>| o != pre.user@ && records[i].owner@ == pre.user@ implies count_owned(
        records.remove(i),
        o,
    ) == count_owned(records, o) by {
        lemma_count_remove(records, i, o);
    }
}

/// Staking an asset that carries no lock, then releasing it once more than
/// the freeze period has passed, leaves the asset without any lock: the
/// release is signed by the very handle that the lock was placed under. It
/// also removes the custody record, restores the stake counter and credits
/// exactly the reward for the whole days of custody.
pub proof fn lemma_round_trip(
    s: Stake,
    bump: u8,
    t0: i64,
    t1: i64,
    freeze: LockAction,
    release: Seq<LockAction>,
)
    requires
        s.stake_account is None,
        s.user_account.amount_staked < s.config.max_stake,
        handle_of(s.program, s.config_key, s.user, bump) is Some,
        days_between(t0, t1) > s.config.freeze_period,
        s.user_account.points + days_between(t0, t1) * s.config.points_per_stake <= u32::MAX,
    ensures
        ({
            let (mid, r0) = stake_spec(s, handle_of(s.program, s.config_key, s.user, bump), bump, t0);
            let u = Unstake {
                user: mid.user,
                program: mid.program,
                config_key: mid.config_key,
                config: mid.config,
                user_account: mid.user_account,
                stake_account: mid.stake_account,
            };
            let (post, r1) = unstake_spec(u, release_handle(u), t1);
            &&& r0 is Ok
            &&& r1 == r0
            &&& (freezes(freeze, s.asset@, r0->Ok_0) && releases(release, s.asset@, r1->Ok_0))
                ==> apply_locks(None, s.asset@, seq![freeze] + release) == None::<(bool, Seq<u8>)>
            &&& post.stake_account is None
            &&& post.user_account.amount_staked == s.user_account.amount_staked
            &&& post.user_account.points == s.user_account.points + days_between(t0, t1)
                * s.config.points_per_stake
        }),
{
    let acts = seq![freeze] + release;
    if release.len() == 2 {
        assert(acts.drop_first() =~= release);
        assert(acts.drop_first().drop_first() =~= seq![release[1]]);
        assert(acts.drop_first().drop_first().drop_first() =~= Seq::<LockAction>::empty());
    }
    reveal_with_fuel(apply_locks, 4);
}

} // verus!
