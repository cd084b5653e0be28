use vstd::prelude::*;
use crate::errors::ErrorCode;
use crate::pool::Pool;

verus! {

/// One participant's aggregate record: who they are, how many assets they
/// have staked across all of their ledger segments, and how many segments
/// they own.
#[derive(Clone, Copy, Debug, PartialEq, Eq, Structural)]
pub struct User {
    /// The pool this participant belongs to.
    pub pool: u64,
    /// The participant's identity.
    pub owner: u64,
    /// Timestamp of the most recent settlement for this participant.
    pub last_update_time: u64,
    /// Count of currently staked assets across all of this participant's
    /// ledger segments.
    pub balance_staked: u64,
    /// Address-derivation nonce; opaque to the ledger logic.
    pub nonce: u8,
    /// Number of ledger segments this participant owns; also the highest
    /// segment id handed out so far.
    pub stores: u8,
}

/// One ledger segment: a bounded run of a participant's stake entries, with
/// the reward owed for them and not yet paid. Entry `i` is the triple
/// `(nft_mints[i], types[i], staked_times[i])`: the staked asset, the reward
/// class it was tagged with at stake time, and the timestamp up to which its
/// accrual has been folded into `reward_token_pending`.
#[derive(Clone, Debug, PartialEq, Eq)]
pub struct UserStore {
    /// The owning participant's identity.
    pub owner: u64,
    /// Address-derivation nonce; opaque to the ledger logic.
    pub nonce: u8,
    /// Identities of the staked assets, in stake order.
    pub nft_mints: Vec<u64>,
    /// Reward class of the entry at the same index, fixed at stake time.
    pub types: Vec<u8>,
    /// Last settlement timestamp of the entry at the same index.
    pub staked_times: Vec<u64>,
    /// 1-based segment number, unique per participant.
    pub store_id: u8,
    /// Reward units owed across this segment's entries and not yet paid.
    pub reward_token_pending: u64,
}

impl UserStore {
    /// Well-formedness: the three entry columns run in parallel.
    pub open spec fn wf(self) -> bool {
        &&& self.nft_mints@.len() == self.types@.len()
        &&& self.nft_mints@.len() == self.staked_times@.len()
    }
}

/// Register a participant: create their record together with their first
/// ledger segment and count them in the pool. Refused while the pool is
/// paused.
pub fn create_user(pool: &mut Pool, pool_key: u64, owner: u64, nonce: u8, store_nonce: u8, now: u64) -> (r:
    Result<(User, UserStore), ErrorCode>)
    ensures
        r is Ok <==> !old(pool).paused && old(pool).user_stake_count < u32::MAX,
        r == Err::<(User, UserStore), ErrorCode>(ErrorCode::PoolPaused) <==> old(pool).paused,
        r == Err::<(User, UserStore), ErrorCode>(ErrorCode::ArithmeticOverflow) <==> !old(
            pool,
        ).paused && old(pool).user_stake_count == u32::MAX,
        r is Err ==> *final(pool) == *old(pool),
        r is Ok ==> *final(pool) == (Pool {
            user_stake_count: (old(pool).user_stake_count + 1) as u32,
            ..*old(pool)
        }),
        r is Ok ==> r->Ok_0.0 == (User {
            pool: pool_key,
            owner,
            last_update_time: now,
            balance_staked: 0,
            nonce,
            stores: 1,
        }),
        r is Ok ==> {
            let store = r->Ok_0.1;
            &&& store.owner == owner
            &&& store.nonce == store_nonce
            &&& store.nft_mints@.len() == 0
            &&& store.types@.len() == 0
            &&& store.staked_times@.len() == 0
            &&& store.store_id == 1
            &&& store.reward_token_pending == 0
            &&& store.wf()
        },
{
    if pool.paused {
        return Err(ErrorCode::PoolPaused);
    }
    if pool.user_stake_count == u32::MAX {
        return Err(ErrorCode::ArithmeticOverflow);
    }
    pool.user_stake_count = pool.user_stake_count + 1;
    let user = User {
        pool: pool_key,
        owner,
        last_update_time: now,
        balance_staked: 0,
        nonce,
        stores: 1,
    };
    let user_store = UserStore {
        owner,
        nonce: store_nonce,
        nft_mints: Vec::new(),
        types: Vec::new(),
        staked_times: Vec::new(),
        store_id: 1,
        reward_token_pending: 0,
    };
    Ok((user, user_store))
}

/// Open one more ledger segment for a participant, numbered after their
/// current highest. Refused while the pool is paused.
pub fn create_user_store(pool: &Pool, user: &mut User, nonce: u8) -> (r: Result<
    UserStore,
    ErrorCode,
>)
    ensures
        r is Ok <==> !pool.paused && old(user).stores < u8::MAX,
        r == Err::<UserStore, ErrorCode>(ErrorCode::PoolPaused) <==> pool.paused,
        r == Err::<UserStore, ErrorCode>(ErrorCode::ArithmeticOverflow) <==> !pool.paused && old(
            user,
        ).stores == u8::MAX,
        r is Err ==> *final(user) == *old(user),
        r is Ok ==> *final(user) == (User { stores: (old(user).stores + 1) as u8, ..*old(user) }),
        r is Ok ==> {
            let store = r->Ok_0;
            &&& store.owner == old(user).owner
            &&& store.nonce == nonce
            &&& store.nft_mints@.len() == 0
            &&& store.types@.len() == 0
            &&& store.staked_times@.len() == 0
            &&& store.store_id == old(user).stores + 1
            &&& store.reward_token_pending == 0
            &&& store.wf()
        },
{
    if pool.paused {
        return Err(ErrorCode::PoolPaused);
    }
    if user.stores == u8::MAX {
        return Err(ErrorCode::ArithmeticOverflow);
    }
    user.stores = user.stores + 1;
    let user_store = UserStore {
        owner: user.owner,
        nonce,
        nft_mints: Vec::new(),
        types: Vec::new(),
        staked_times: Vec::new(),
        store_id: user.stores,
        reward_token_pending: 0,
    };
    Ok(user_store)
}

/// Owner-only destruction of a participant record. Allowed only once the
/// participant has nothing staked and no ledger segments left; uncounts them
/// from the pool. The caller destroys the record itself after this succeeds.
pub fn close_user(pool: &mut Pool, user: &User, caller: u64) -> (r: Result<(), ErrorCode>)
    ensures
        r == Ok::<(), ErrorCode>(()) <==> caller == user.owner && user.balance_staked == 0
            && user.stores == 0 && old(pool).user_stake_count > 0,
        r == Err::<(), ErrorCode>(ErrorCode::Unauthorized) <==> caller != user.owner,
        r == Err::<(), ErrorCode>(ErrorCode::PreconditionFailed) <==> caller == user.owner && (
        user.balance_staked != 0 || user.stores != 0),
        r == Err::<(), ErrorCode>(ErrorCode::ArithmeticUnderflow) <==> caller == user.owner
            && user.balance_staked == 0 && user.stores == 0 && old(pool).user_stake_count == 0,
        r is Err ==> *final(pool) == *old(pool),
        r is Ok ==> *final(pool) == (Pool {
            user_stake_count: (old(pool).user_stake_count - 1) as u32,
            ..*old(pool)
        }),
{
    if caller != user.owner {
        return Err(ErrorCode::Unauthorized);
    }
    if user.balance_staked != 0 || user.stores != 0 {
        return Err(ErrorCode::PreconditionFailed);
    }
    if pool.user_stake_count == 0 {
        return Err(ErrorCode::ArithmeticUnderflow);
    }
    pool.user_stake_count = pool.user_stake_count - 1;
    Ok(())
}

/// Owner-only destruction of a ledger segment. Allowed only once the segment
/// holds no entries and its pending reward is zero; uncounts it from the
/// participant. The caller destroys the record itself after this succeeds.
pub fn close_user_store(user: &mut User, user_store: &UserStore, caller: u64) -> (r: Result<
    (),
    ErrorCode,
>)
    ensures
        r == Ok::<(), ErrorCode>(()) <==> caller == user_store.owner
            && user_store.reward_token_pending == 0 && user_store.nft_mints@.len() == 0 && old(
            user,
        ).stores > 0,
        r == Err::<(), ErrorCode>(ErrorCode::Unauthorized) <==> caller != user_store.owner,
        r == Err::<(), ErrorCode>(ErrorCode::PreconditionFailed) <==> caller == user_store.owner
            && (user_store.reward_token_pending != 0 || user_store.nft_mints@.len() != 0),
        r == Err::<(), ErrorCode>(ErrorCode::ArithmeticUnderflow) <==> caller == user_store.owner
            && user_store.reward_token_pending == 0 && user_store.nft_mints@.len() == 0 && old(
            user,
        ).stores == 0,
        r is Err ==> *final(user) == *old(user),
        r is Ok ==> *final(user) == (User { stores: (old(user).stores - 1) as u8, ..*old(user) }),
{
    if caller != user_store.owner {
        return Err(ErrorCode::Unauthorized);
    }
    if user_store.reward_token_pending != 0 || user_store.nft_mints.len() != 0 {
        return Err(ErrorCode::PreconditionFailed);
    }
    if user.stores == 0 {
        return Err(ErrorCode::ArithmeticUnderflow);
    }
    user.stores = user.stores - 1;
    Ok(())
}

} // verus!
