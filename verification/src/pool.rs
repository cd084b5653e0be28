use vstd::prelude::*;
use crate::errors::ErrorCode;
use crate::vault::Vault;

verus! {

/// Reward units accrued per staked asset per 24-hour period when a pool is
/// first created, before the authority configures its own rate.
pub const INITIAL_REWARD_PER_TOKEN: u64 = 11_000_000_000;

/// Top-level configuration and aggregate counters for one staking pool.
#[derive(Clone, Copy, Debug, PartialEq, Eq, Structural)]
pub struct Pool {
    /// Identity permitted to change the pool's configuration.
    pub authority: u64,
    /// Address-derivation nonce; opaque to the ledger logic.
    pub nonce: u8,
    /// While true, participant-state-mutating operations are rejected.
    pub paused: bool,
    /// Identity of the reward token kind paid out by this pool.
    pub reward_mint: u64,
    /// Identity of the custodial account holding the reward reserve.
    pub reward_vault: u64,
    /// Default reward rate: units accrued per staked asset per 24-hour
    /// period, used for any collection without an override.
    pub reward_per_token: u64,
    /// Number of registered participant records.
    pub user_stake_count: u32,
    /// Total assets staked across all participants.
    pub balance_staked: u64,
}

/// Create a pool with its empty membership table. The pool starts unpaused,
/// with no stakes, no participants, and the initial default rate.
pub fn initialize_pool(
    authority: u64,
    pool_nonce: u8,
    vault_nonce: u8,
    reward_mint: u64,
    reward_vault: u64,
) -> (r: (Pool, Vault))
    ensures
        r.0 == (Pool {
            authority,
            nonce: pool_nonce,
            paused: false,
            reward_mint,
            reward_vault,
            reward_per_token: INITIAL_REWARD_PER_TOKEN,
            user_stake_count: 0,
            balance_staked: 0,
        }),
        r.1.candy_machines@.len() == 0,
        r.1.reward_types@.len() == 0,
        r.1.nonce == vault_nonce,
        r.1.wf(),
{
    let pool = Pool {
        authority,
        nonce: pool_nonce,
        paused: false,
        reward_mint,
        reward_vault,
        reward_per_token: INITIAL_REWARD_PER_TOKEN,
        user_stake_count: 0,
        balance_staked: 0,
    };
    let vault = Vault { candy_machines: Vec::new(), reward_types: Vec::new(), nonce: vault_nonce };
    (pool, vault)
}

/// Authority-only replacement of the pool-wide default reward rate. The new
/// rate applies to every accrual window settled after this call; windows
/// already settled are unaffected.
pub fn set_reward_per_token(pool: &mut Pool, caller: u64, reward_per_token: u64) -> (r: Result<
    (),
    ErrorCode,
>)
    ensures
        r == Ok::<(), ErrorCode>(()) <==> caller == old(pool).authority && !old(pool).paused,
        r == Err::<(), ErrorCode>(ErrorCode::Unauthorized) <==> caller != old(pool).authority,
        r == Err::<(), ErrorCode>(ErrorCode::PoolPaused) <==> caller == old(pool).authority
            && old(pool).paused,
        r is Err ==> *final(pool) == *old(pool),
        r is Ok ==> *final(pool) == (Pool { reward_per_token, ..*old(pool) }),
{
    if caller != pool.authority {
        return Err(ErrorCode::Unauthorized);
    }
    if pool.paused {
        return Err(ErrorCode::PoolPaused);
    }
    pool.reward_per_token = reward_per_token;
    Ok(())
}

/// Authority-only pause. Refused if the pool is already paused.
pub fn pause(pool: &mut Pool, caller: u64) -> (r: Result<(), ErrorCode>)
    ensures
        r == Ok::<(), ErrorCode>(()) <==> caller == old(pool).authority && !old(pool).paused,
        r == Err::<(), ErrorCode>(ErrorCode::Unauthorized) <==> caller != old(pool).authority,
        r == Err::<(), ErrorCode>(ErrorCode::PreconditionFailed) <==> caller == old(
            pool,
        ).authority && old(pool).paused,
        r is Err ==> *final(pool) == *old(pool),
        r is Ok ==> *final(pool) == (Pool { paused: true, ..*old(pool) }),
{
    if caller != pool.authority {
        return Err(ErrorCode::Unauthorized);
    }
    if pool.paused {
        return Err(ErrorCode::PreconditionFailed);
    }
    pool.paused = true;
    Ok(())
}

/// Authority-only unpause. Refused if the pool is not paused.
pub fn unpause(pool: &mut Pool, caller: u64) -> (r: Result<(), ErrorCode>)
    ensures
        r == Ok::<(), ErrorCode>(()) <==> caller == old(pool).authority && old(pool).paused,
        r == Err::<(), ErrorCode>(ErrorCode::Unauthorized) <==> caller != old(pool).authority,
        r == Err::<(), ErrorCode>(ErrorCode::PreconditionFailed) <==> caller == old(
            pool,
        ).authority && !old(pool).paused,
        r is Err ==> *final(pool) == *old(pool),
        r is Ok ==> *final(pool) == (Pool { paused: false, ..*old(pool) }),
{
    if caller != pool.authority {
        return Err(ErrorCode::Unauthorized);
    }
    if !pool.paused {
        return Err(ErrorCode::PreconditionFailed);
    }
    pool.paused = false;
    Ok(())
}

/// Authority-only drain of the reward reserve. Returns the amount the caller
/// should transfer out of the reward vault: the requested amount clamped to
/// the vault's current balance. Unaffected by pause.
pub fn withdraw_reward(pool: &Pool, caller: u64, amount: u64, vault_balance: u64) -> (r: Result<
    u64,
    ErrorCode,
>)
    ensures
        caller != pool.authority ==> r == Err::<u64, ErrorCode>(ErrorCode::Unauthorized),
        caller == pool.authority ==> r == Ok::<u64, ErrorCode>(
            if amount <= vault_balance {
                amount
            } else {
                vault_balance
            },
        ),
{
    if caller != pool.authority {
        return Err(ErrorCode::Unauthorized);
    }
    if vault_balance < amount {
        Ok(vault_balance)
    } else {
        Ok(amount)
    }
}

/// Authority-gated top-up of the reward reserve. Returns the amount the
/// caller should transfer into the reward vault: the requested amount
/// clamped to the depositor's balance. Unaffected by pause.
pub fn deposit_reward(pool: &Pool, caller: u64, amount: u64, depositor_balance: u64) -> (r: Result<
    u64,
    ErrorCode,
>)
    ensures
        caller != pool.authority ==> r == Err::<u64, ErrorCode>(ErrorCode::Unauthorized),
        caller == pool.authority ==> r == Ok::<u64, ErrorCode>(
            if amount <= depositor_balance {
                amount
            } else {
                depositor_balance
            },
        ),
{
    if caller != pool.authority {
        return Err(ErrorCode::Unauthorized);
    }
    if amount > depositor_balance {
        Ok(depositor_balance)
    } else {
        Ok(amount)
    }
}

} // verus!
