use vstd::prelude::*;
use crate::accrual::{clocks_ok, settled_pending, total_accrued, update_rewards};
use crate::errors::ErrorCode;
use crate::lookup::{first_match, lemma_first_match, position_u64};
use crate::pool::Pool;
use crate::rates::CandyMachineRewardPerToken;
use crate::user::{User, UserStore};
use crate::vault::{classify_creators, resolve_class, Vault};

verus! {

/// Stake one asset. The asset's creator list must resolve to a reward class
/// through the membership table; the target segment is first settled up to
/// `now`, locking in reward at the pre-stake rates, and then a new entry is
/// appended, tagged with the resolved class and starting its accrual at
/// `now`. Both staked-asset counters go up by one. Custody of the asset
/// moves to the pool's vault outside this ledger; the caller performs that
/// transfer and commits these records only if it succeeds.
pub fn stake(
    pool: &mut Pool,
    vault: &Vault,
    cm_reward_per_token: &CandyMachineRewardPerToken,
    user: &mut User,
    user_store: &mut UserStore,
    creators: &Vec<u64>,
    nft_mint: u64,
    now: u64,
) -> (r: Result<(), ErrorCode>)
    requires
        old(user_store).wf(),
        vault.wf(),
        cm_reward_per_token.wf(),
    ensures
        final(user_store).wf(),
        r == Ok::<(), ErrorCode>(()) <==> !old(pool).paused && resolve_class(*vault, creators@)
            is Some && old(user).balance_staked < u64::MAX && old(pool).balance_staked < u64::MAX
            && clocks_ok(*old(user_store), now) && settled_pending(
            *old(pool),
            *vault,
            *cm_reward_per_token,
            *old(user_store),
            now,
        ) <= u64::MAX,
        r == Err::<(), ErrorCode>(ErrorCode::PoolPaused) <==> old(pool).paused,
        r == Err::<(), ErrorCode>(ErrorCode::CandyNotMatch) <==> !old(pool).paused
            && resolve_class(*vault, creators@) is None,
        r == Err::<(), ErrorCode>(ErrorCode::ArithmeticOverflow) <==> !old(pool).paused
            && resolve_class(*vault, creators@) is Some && (old(user).balance_staked == u64::MAX
            || old(pool).balance_staked == u64::MAX || (clocks_ok(*old(user_store), now)
            && settled_pending(*old(pool), *vault, *cm_reward_per_token, *old(user_store), now)
            > u64::MAX)),
        r == Err::<(), ErrorCode>(ErrorCode::InvalidClockReading) <==> !old(pool).paused
            && resolve_class(*vault, creators@) is Some && old(user).balance_staked < u64::MAX
            && old(pool).balance_staked < u64::MAX && !clocks_ok(*old(user_store), now),
        r is Err ==> *final(pool) == *old(pool) && *final(user) == *old(user) && *final(user_store)
            == *old(user_store),
        r is Ok ==> {
            &&& final(user_store).nft_mints@ == old(user_store).nft_mints@.push(nft_mint)
            &&& final(user_store).types@ == old(user_store).types@.push(
                resolve_class(*vault, creators@)->Some_0,
            )
            &&& final(user_store).staked_times@.len() == old(user_store).staked_times@.len() + 1
            &&& forall|j: int|
                0 <= j < final(user_store).staked_times@.len()
                    ==> final(user_store).staked_times@[j] == now
            &&& final(user_store).reward_token_pending == settled_pending(
                *old(pool),
                *vault,
                *cm_reward_per_token,
                *old(user_store),
                now,
            )
            &&& final(user_store).owner == old(user_store).owner
            &&& final(user_store).nonce == old(user_store).nonce
            &&& final(user_store).store_id == old(user_store).store_id
            &&& *final(user) == (User {
                last_update_time: now,
                balance_staked: (old(user).balance_staked + 1) as u64,
                ..*old(user)
            })
            &&& *final(pool) == (Pool {
                balance_staked: (old(pool).balance_staked + 1) as u64,
                ..*old(pool)
            })
        },
{
    if pool.paused {
        return Err(ErrorCode::PoolPaused);
    }
    let reward_type = match classify_creators(vault, creators) {
        None => {
            return Err(ErrorCode::CandyNotMatch);
        },
        Some(t) => t,
    };
    if user.balance_staked == u64::MAX || pool.balance_staked == u64::MAX {
        return Err(ErrorCode::ArithmeticOverflow);
    }
    match update_rewards(pool, user, user_store, vault, cm_reward_per_token, now) {
        Err(e) => {
            return Err(e);
        },
        Ok(()) => {},
    }
    user.balance_staked = user.balance_staked + 1;
    pool.balance_staked = pool.balance_staked + 1;
    user_store.nft_mints.push(nft_mint);
    user_store.types.push(reward_type);
    user_store.staked_times.push(now);
    Ok(())
}

/// Unstake one asset by its identity. The asset's creator list is
/// re-validated against the membership table; the owning segment is settled
/// up to `now`, so the leaving entry's last window is paid into the pending
/// balance; then the entry is removed and both staked-asset counters go down
/// by one. A missing asset fails with `AssetNotFound` and changes nothing.
/// Custody returns to the participant outside this ledger; the caller
/// performs that transfer and commits these records only if it succeeds.
pub fn unstake(
    pool: &mut Pool,
    vault: &Vault,
    cm_reward_per_token: &CandyMachineRewardPerToken,
    user: &mut User,
    user_store: &mut UserStore,
    creators: &Vec<u64>,
    nft_mint: u64,
    now: u64,
) -> (r: Result<(), ErrorCode>)
    requires
        old(user_store).wf(),
        vault.wf(),
        cm_reward_per_token.wf(),
    ensures
        final(user_store).wf(),
        r == Ok::<(), ErrorCode>(()) <==> !old(pool).paused && resolve_class(*vault, creators@)
            is Some && first_match(old(user_store).nft_mints@, nft_mint, 0) != -1 && old(
            user,
        ).balance_staked > 0 && old(pool).balance_staked > 0 && clocks_ok(*old(user_store), now)
            && settled_pending(*old(pool), *vault, *cm_reward_per_token, *old(user_store), now)
            <= u64::MAX,
        r == Err::<(), ErrorCode>(ErrorCode::PoolPaused) <==> old(pool).paused,
        r == Err::<(), ErrorCode>(ErrorCode::CandyNotMatch) <==> !old(pool).paused
            && resolve_class(*vault, creators@) is None,
        r == Err::<(), ErrorCode>(ErrorCode::AssetNotFound) <==> !old(pool).paused
            && resolve_class(*vault, creators@) is Some && first_match(
            old(user_store).nft_mints@,
            nft_mint,
            0,
        ) == -1,
        r == Err::<(), ErrorCode>(ErrorCode::ArithmeticUnderflow) <==> !old(pool).paused
            && resolve_class(*vault, creators@) is Some && first_match(
            old(user_store).nft_mints@,
            nft_mint,
            0,
        ) != -1 && (old(user).balance_staked == 0 || old(pool).balance_staked == 0),
        r == Err::<(), ErrorCode>(ErrorCode::InvalidClockReading) <==> !old(pool).paused
            && resolve_class(*vault, creators@) is Some && first_match(
            old(user_store).nft_mints@,
            nft_mint,
            0,
        ) != -1 && old(user).balance_staked > 0 && old(pool).balance_staked > 0 && !clocks_ok(
            *old(user_store),
            now,
        ),
        r == Err::<(), ErrorCode>(ErrorCode::ArithmeticOverflow) <==> !old(pool).paused
            && resolve_class(*vault, creators@) is Some && first_match(
            old(user_store).nft_mints@,
            nft_mint,
            0,
        ) != -1 && old(user).balance_staked > 0 && old(pool).balance_staked > 0 && clocks_ok(
            *old(user_store),
            now,
        ) && settled_pending(*old(pool), *vault, *cm_reward_per_token, *old(user_store), now)
            > u64::MAX,
        r is Err ==> *final(pool) == *old(pool) && *final(user) == *old(user) && *final(user_store)
            == *old(user_store),
        r is Ok ==> ({
            let k = first_match(old(user_store).nft_mints@, nft_mint, 0);
            &&& final(user_store).nft_mints@ == old(user_store).nft_mints@.remove(k)
            &&& final(user_store).types@ == old(user_store).types@.remove(k)
            &&& final(user_store).staked_times@.len() == old(user_store).staked_times@.len() - 1
            &&& forall|j: int|
                0 <= j < final(user_store).staked_times@.len()
                    ==> final(user_store).staked_times@[j] == now
            &&& final(user_store).reward_token_pending == settled_pending(
                *old(pool),
                *vault,
                *cm_reward_per_token,
                *old(user_store),
                now,
            )
            &&& final(user_store).owner == old(user_store).owner
            &&& final(user_store).nonce == old(user_store).nonce
            &&& final(user_store).store_id == old(user_store).store_id
            &&& *final(user) == (User {
                last_update_time: now,
                balance_staked: (old(user).balance_staked - 1) as u64,
                ..*old(user)
            })
            &&& *final(pool) == (Pool {
                balance_staked: (old(pool).balance_staked - 1) as u64,
                ..*old(pool)
            })
        }),
{
    if pool.paused {
        return Err(ErrorCode::PoolPaused);
    }
    match classify_creators(vault, creators) {
        None => {
            return Err(ErrorCode::CandyNotMatch);
        },
        Some(_) => {},
    }
    let index = match position_u64(&user_store.nft_mints, nft_mint) {
        None => {
            return Err(ErrorCode::AssetNotFound);
        },
        Some(i) => i,
    };
    if user.balance_staked == 0 || pool.balance_staked == 0 {
        return Err(ErrorCode::ArithmeticUnderflow);
    }
    proof {
        lemma_first_match(user_store.nft_mints@, nft_mint, 0);
    }
    match update_rewards(pool, user, user_store, vault, cm_reward_per_token, now) {
        Err(e) => {
            return Err(e);
        },
        Ok(()) => {},
    }
    user.balance_staked = user.balance_staked - 1;
    pool.balance_staked = pool.balance_staked - 1;
    user_store.nft_mints.remove(index);
    user_store.types.remove(index);
    user_store.staked_times.remove(index);
    Ok(())
}

/// Settle a segment up to `now` and pay its whole pending reward out of the
/// reward vault. The payout is the pending balance clamped to the vault's
/// balance, and the pending balance is reset to zero even when the vault
/// could not cover it: the unpaid shortfall is forfeited, not carried. The
/// caller transfers the returned amount from the reward vault to the
/// participant. Pause does not gate claiming.
pub fn claim(
    pool: &Pool,
    vault: &Vault,
    cm_reward_per_token: &CandyMachineRewardPerToken,
    user: &mut User,
    user_store: &mut UserStore,
    vault_balance: u64,
    now: u64,
) -> (r: Result<u64, ErrorCode>)
    requires
        old(user_store).wf(),
        vault.wf(),
        cm_reward_per_token.wf(),
    ensures
        final(user_store).wf(),
        r is Ok <==> clocks_ok(*old(user_store), now) && settled_pending(
            *pool,
            *vault,
            *cm_reward_per_token,
            *old(user_store),
            now,
        ) <= u64::MAX,
        r == Err::<u64, ErrorCode>(ErrorCode::InvalidClockReading) <==> !clocks_ok(
            *old(user_store),
            now,
        ),
        r == Err::<u64, ErrorCode>(ErrorCode::ArithmeticOverflow) <==> clocks_ok(
            *old(user_store),
            now,
        ) && settled_pending(*pool, *vault, *cm_reward_per_token, *old(user_store), now)
            > u64::MAX,
        r is Err ==> *final(user) == *old(user) && *final(user_store) == *old(user_store),
        r is Ok ==> ({
            let owed = settled_pending(*pool, *vault, *cm_reward_per_token, *old(user_store), now);
            &&& r->Ok_0 == if owed <= vault_balance {
                owed as u64
            } else {
                vault_balance
            }
            &&& final(user_store).reward_token_pending == 0
            &&& final(user_store).nft_mints@ == old(user_store).nft_mints@
            &&& final(user_store).types@ == old(user_store).types@
            &&& final(user_store).staked_times@.len() == old(user_store).staked_times@.len()
            &&& forall|j: int|
                0 <= j < final(user_store).staked_times@.len()
                    ==> final(user_store).staked_times@[j] == now
            &&& final(user_store).owner == old(user_store).owner
            &&& final(user_store).nonce == old(user_store).nonce
            &&& final(user_store).store_id == old(user_store).store_id
            &&& *final(user) == (User { last_update_time: now, ..*old(user) })
        }),
{
    match update_rewards(pool, user, user_store, vault, cm_reward_per_token, now) {
        Err(e) => {
            return Err(e);
        },
        Ok(()) => {},
    }
    if user_store.reward_token_pending > 0 {
        let mut reward_amount = user_store.reward_token_pending;
        user_store.reward_token_pending = 0;
        if vault_balance < reward_amount {
            reward_amount = vault_balance;
        }
        Ok(reward_amount)
    } else {
        Ok(0)
    }
}

} // verus!

