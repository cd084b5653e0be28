use vstd::prelude::*;
use vstd::arithmetic::div_mod::{lemma_div_is_ordered, lemma_div_pos_is_pos};
use vstd::arithmetic::mul::{lemma_mul_nonnegative, lemma_mul_upper_bound};
use crate::errors::ErrorCode;
use crate::pool::Pool;
use crate::rates::{CandyMachineRewardPerToken, rate_for, spec_rate_for};
use crate::user::{User, UserStore};
use crate::vault::Vault;

verus! {

/// Seconds in the 24-hour period that reward rates are quoted over.
pub const SECONDS_PER_DAY: u64 = 86400;

/// Reward units one stake entry earns over an accrual window: the per-day
/// rate times the elapsed seconds, divided by the seconds in a day,
/// truncating.
pub open spec fn accrued(rate: u64, elapsed: int) -> int {
    rate * elapsed / (SECONDS_PER_DAY as int)
}

/// Reward units earned at `now` by the first `n` entries of a segment with
/// reward classes `types` and last settlement timestamps `times`, each entry
/// at the rate its class resolves to under the current tables.
pub open spec fn total_accrued_upto(
    pool: Pool,
    vault: Vault,
    cm: CandyMachineRewardPerToken,
    types: Seq<u8>,
    times: Seq<u64>,
    now: u64,
    n: int,
) -> int
    decreases n,
{
    if n <= 0 {
        0
    } else {
        total_accrued_upto(pool, vault, cm, types, times, now, n - 1) + accrued(
            spec_rate_for(pool, vault, cm, types[n - 1]),
            now - times[n - 1],
        )
    }
}

/// Reward units a whole segment earns when settled at `now`.
pub open spec fn total_accrued(
    pool: Pool,
    vault: Vault,
    cm: CandyMachineRewardPerToken,
    store: UserStore,
    now: u64,
) -> int {
    total_accrued_upto(
        pool,
        vault,
        cm,
        store.types@,
        store.staked_times@,
        now,
        store.types@.len() as int,
    )
}

/// No entry of the segment has a last settlement timestamp in the future of
/// `now`. Settlement refuses to run otherwise: a clock regression is a fatal
/// invariant violation, never silently clamped.
pub open spec fn clocks_ok(store: UserStore, now: u64) -> bool {
    forall|j: int| 0 <= j < store.staked_times@.len() ==> store.staked_times@[j] <= now
}

/// The pending balance a segment would hold right after a settlement at
/// `now`: what is owed already, plus what the whole segment earns over the
/// windows ending at `now`.
pub open spec fn settled_pending(
    pool: Pool,
    vault: Vault,
    cm: CandyMachineRewardPerToken,
    store: UserStore,
    now: u64,
) -> int {
    store.reward_token_pending + total_accrued(pool, vault, cm, store, now)
}

/// An entry settled over a non-negative window never earns a negative
/// amount.
pub proof fn lemma_accrued_nonneg(rate: u64, elapsed: int)
    requires
        elapsed >= 0,
    ensures
        accrued(rate, elapsed) >= 0,
{
    lemma_mul_nonnegative(rate as int, elapsed);
    lemma_div_pos_is_pos(rate * elapsed, SECONDS_PER_DAY as int);
}

/// Settling more entries never earns less: the running total over a prefix
/// is a lower bound for the total over the whole segment, provided no entry's
/// clock is in the future.
pub proof fn lemma_total_accrued_mono(
    pool: Pool,
    vault: Vault,
    cm: CandyMachineRewardPerToken,
    types: Seq<u8>,
    times: Seq<u64>,
    now: u64,
    i: int,
    n: int,
)
    requires
        0 <= i <= n <= times.len(),
        forall|j: int| 0 <= j < n ==> times[j] <= now,
    ensures
        total_accrued_upto(pool, vault, cm, types, times, now, i) <= total_accrued_upto(
            pool,
            vault,
            cm,
            types,
            times,
            now,
            n,
        ),
    decreases n - i,
{
    if i < n {
        lemma_accrued_nonneg(spec_rate_for(pool, vault, cm, types[n - 1]), now - times[n - 1]);
        lemma_total_accrued_mono(pool, vault, cm, types, times, now, i, n - 1);
    }
}

/// Law: settlement is idempotent on a zero-duration window. A segment whose
/// entries are all settled to `now` accrues nothing when settled at `now`
/// again, so a repeated settlement with no elapsed time adds zero pending
/// reward.
pub proof fn lemma_settle_idempotent(
    pool: Pool,
    vault: Vault,
    cm: CandyMachineRewardPerToken,
    store: UserStore,
    now: u64,
)
    requires
        store.wf(),
        forall|j: int|
            0 <= j < store.staked_times@.len() ==> store.staked_times@[j] == now,
    ensures
        total_accrued(pool, vault, cm, store, now) == 0,
{
    lemma_zero_window_upto(
        pool,
        vault,
        cm,
        store.types@,
        store.staked_times@,
        now,
        store.types@.len() as int,
    );
}

proof fn lemma_zero_window_upto(
    pool: Pool,
    vault: Vault,
    cm: CandyMachineRewardPerToken,
    types: Seq<u8>,
    times: Seq<u64>,
    now: u64,
    n: int,
)
    requires
        n <= times.len(),
        forall|j: int| 0 <= j < n ==> times[j] == now,
    ensures
        total_accrued_upto(pool, vault, cm, types, times, now, n) == 0,
    decreases n,
{
    if n > 0 {
        lemma_zero_window_upto(pool, vault, cm, types, times, now, n - 1);
        assert(times[n - 1] == now);
        let rate = spec_rate_for(pool, vault, cm, types[n - 1]);
        assert(rate * 0 == 0);
        assert(accrued(rate, 0) == 0);
    }
}

/// Law: accrual is exact. A segment holding one entry of reward class `c`
/// settled `e` seconds ago earns exactly `r * e / 86400` units, truncating,
/// where `r` is the per-day rate that `c` resolves to.
pub proof fn lemma_single_entry_accrual(
    pool: Pool,
    vault: Vault,
    cm: CandyMachineRewardPerToken,
    store: UserStore,
    now: u64,
)
    requires
        store.wf(),
        store.staked_times@.len() == 1,
    ensures
        total_accrued(pool, vault, cm, store, now) == spec_rate_for(
            pool,
            vault,
            cm,
            store.types@[0],
        ) * (now - store.staked_times@[0]) / 86400,
{
    assert(total_accrued_upto(
        pool,
        vault,
        cm,
        store.types@,
        store.staked_times@,
        now,
        0,
    ) == 0);
}

/// The accrual engine. Settle every entry of one ledger segment up to
/// `current_time`: each entry earns `rate * elapsed / 86400` units at the
/// per-day rate its stored reward class currently resolves to, every entry's
/// settlement timestamp advances to `current_time`, the sum of the earnings
/// is added to the segment's pending reward, and the participant's
/// last-settlement timestamp is brought up to date. A clock reading earlier
/// than a stored timestamp, or a pending balance that would exceed `u64::MAX`,
/// aborts the settlement with no state change at all.
pub fn update_rewards(
    pool: &Pool,
    u: &mut User,
    user_store: &mut UserStore,
    vault: &Vault,
    cm_reward_per_tokens: &CandyMachineRewardPerToken,
    current_time: u64,
) -> (r: Result<(), ErrorCode>)
    requires
        old(user_store).wf(),
        vault.wf(),
        cm_reward_per_tokens.wf(),
    ensures
        final(user_store).wf(),
        r == Ok::<(), ErrorCode>(()) <==> clocks_ok(*old(user_store), current_time)
            && settled_pending(
            *pool,
            *vault,
            *cm_reward_per_tokens,
            *old(user_store),
            current_time,
        ) <= u64::MAX,
        r == Err::<(), ErrorCode>(ErrorCode::InvalidClockReading) <==> !clocks_ok(
            *old(user_store),
            current_time,
        ),
        r == Err::<(), ErrorCode>(ErrorCode::ArithmeticOverflow) <==> clocks_ok(
            *old(user_store),
            current_time,
        ) && settled_pending(*pool, *vault, *cm_reward_per_tokens, *old(user_store), current_time)
            > u64::MAX,
        r is Err ==> *final(user_store) == *old(user_store) && *final(u) == *old(u),
        r is Ok ==> {
            &&& final(user_store).nft_mints@ == old(user_store).nft_mints@
            &&& final(user_store).types@ == old(user_store).types@
            &&& final(user_store).staked_times@.len() == old(user_store).staked_times@.len()
            &&& forall|j: int|
                0 <= j < final(user_store).staked_times@.len()
                    ==> final(user_store).staked_times@[j] == current_time
            &&& final(user_store).reward_token_pending == old(user_store).reward_token_pending
                + total_accrued(
                *pool,
                *vault,
                *cm_reward_per_tokens,
                *old(user_store),
                current_time,
            )
            &&& final(user_store).owner == old(user_store).owner
            &&& final(user_store).nonce == old(user_store).nonce
            &&& final(user_store).store_id == old(user_store).store_id
            &&& *final(u) == (User { last_update_time: current_time, ..*old(u) })
        },
{
    let n = user_store.staked_times.len();

    // First pass: refuse a clock reading earlier than any stored timestamp.
    let mut i: usize = 0;
    while i < n
        invariant
            i <= n,
            n == user_store.staked_times@.len(),
            *user_store == *old(user_store),
            *u == *old(u),
            user_store.wf(),
            forall|j: int| 0 <= j < i ==> user_store.staked_times@[j] <= current_time,
        decreases n - i,
    {
        if user_store.staked_times[i] > current_time {
            return Err(ErrorCode::InvalidClockReading);
        }
        i = i + 1;
    }

    // Second pass: total the earnings, refusing a total the pending balance
    // cannot take. Nothing is written yet, so an abort leaves no trace.
    let mut total: u64 = 0;
    let mut i: usize = 0;
    while i < n
        invariant
            i <= n,
            n == user_store.staked_times@.len(),
            *user_store == *old(user_store),
            *u == *old(u),
            user_store.wf(),
            vault.wf(),
            cm_reward_per_tokens.wf(),
            forall|j: int| 0 <= j < n ==> user_store.staked_times@[j] <= current_time,
            total == total_accrued_upto(
                *pool,
                *vault,
                *cm_reward_per_tokens,
                user_store.types@,
                user_store.staked_times@,
                current_time,
                i as int,
            ),
        decreases n - i,
    {
        let rate = rate_for(pool, vault, cm_reward_per_tokens, user_store.types[i]);
        let elapsed = current_time - user_store.staked_times[i];
        proof {
            lemma_mul_upper_bound(rate as int, u64::MAX as int, elapsed as int, u64::MAX as int);
            lemma_div_is_ordered(
                rate * elapsed,
                u64::MAX * u64::MAX,
                SECONDS_PER_DAY as int,
            );
            lemma_mul_nonnegative(rate as int, elapsed as int);
            lemma_div_pos_is_pos(rate * elapsed, SECONDS_PER_DAY as int);
        }
        let add: u128 = (rate as u128) * (elapsed as u128) / (SECONDS_PER_DAY as u128);
        let new_total: u128 = (total as u128) + add;
        if new_total > u64::MAX as u128 {
            proof {
                lemma_total_accrued_mono(
                    *pool,
                    *vault,
                    *cm_reward_per_tokens,
                    user_store.types@,
                    user_store.staked_times@,
                    current_time,
                    i as int + 1,
                    n as int,
                );
            }
            return Err(ErrorCode::ArithmeticOverflow);
        }
        total = new_total as u64;
        i = i + 1;
    }

    if total > u64::MAX - user_store.reward_token_pending {
        return Err(ErrorCode::ArithmeticOverflow);
    }

    // Commit: advance every entry's clock, fold the total in.
    let mut i: usize = 0;
    while i < n
        invariant
            i <= n,
            n == user_store.staked_times@.len(),
            n == old(user_store).staked_times@.len(),
            user_store.wf(),
            user_store.nft_mints@ == old(user_store).nft_mints@,
            user_store.types@ == old(user_store).types@,
            user_store.owner == old(user_store).owner,
            user_store.nonce == old(user_store).nonce,
            user_store.store_id == old(user_store).store_id,
            user_store.reward_token_pending == old(user_store).reward_token_pending,
            forall|j: int| 0 <= j < i ==> user_store.staked_times@[j] == current_time,
            forall|j: int|
                i <= j < n ==> user_store.staked_times@[j] == old(user_store).staked_times@[j],
        decreases n - i,
    {
        user_store.staked_times[i] = current_time;
        i = i + 1;
    }
    user_store.reward_token_pending = user_store.reward_token_pending + total;
    u.last_update_time = current_time;
    Ok(())
}

} // verus!

