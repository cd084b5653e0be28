use j_nft_staking::accrual::update_rewards;
use j_nft_staking::errors::ErrorCode;
use j_nft_staking::pool::{initialize_pool, pause, set_reward_per_token, Pool};
use j_nft_staking::rates::{
    create_candy_machine_reward_per_token, remove_candy_machine_reward_per_token,
    set_candy_machine_reward_per_token, CandyMachineRewardPerToken,
};
use j_nft_staking::staking::{claim, stake, unstake};
use j_nft_staking::user::{create_user, User, UserStore};
use j_nft_staking::vault::{add_candy_machine, Vault};

const AUTHORITY: u64 = 7;
const OWNER: u64 = 42;
const COLLECTION_A: u64 = 100;
const COLLECTION_B: u64 = 200;
const MINT_1: u64 = 1001;
const MINT_2: u64 = 1002;

/// A pool with two known collections (classes 1 and 2), an empty override
/// registry, and one registered participant.
fn setup() -> (Pool, Vault, CandyMachineRewardPerToken, User, UserStore) {
    let (mut pool, mut vault) = initialize_pool(AUTHORITY, 0, 0, 10, 11);
    add_candy_machine(&pool, &mut vault, AUTHORITY, COLLECTION_A, 1).unwrap();
    add_candy_machine(&pool, &mut vault, AUTHORITY, COLLECTION_B, 2).unwrap();
    let cm = create_candy_machine_reward_per_token(&pool, AUTHORITY, 0).unwrap();
    let (user, store) = create_user(&mut pool, 1, OWNER, 0, 0, 0).unwrap();
    (pool, vault, cm, user, store)
}

#[test]
fn stake_appends_entry_and_counts() {
    let (mut pool, vault, cm, mut user, mut store) = setup();
    let creators = vec![COLLECTION_A];
    assert_eq!(stake(&mut pool, &vault, &cm, &mut user, &mut store, &creators, MINT_1, 50), Ok(()));
    assert_eq!(store.nft_mints, vec![MINT_1]);
    assert_eq!(store.types, vec![1]);
    assert_eq!(store.staked_times, vec![50]);
    assert_eq!(user.balance_staked, 1);
    assert_eq!(pool.balance_staked, 1);
    assert_eq!(user.last_update_time, 50);
}

#[test]
fn stake_unknown_collection_is_rejected() {
    let (mut pool, vault, cm, mut user, mut store) = setup();
    let creators = vec![999, 998];
    assert_eq!(
        stake(&mut pool, &vault, &cm, &mut user, &mut store, &creators, MINT_1, 50),
        Err(ErrorCode::CandyNotMatch)
    );
    assert!(store.nft_mints.is_empty());
    assert_eq!(pool.balance_staked, 0);
}

#[test]
fn stake_resolves_first_known_creator() {
    let (mut pool, vault, cm, mut user, mut store) = setup();
    // An unknown creator ahead of a known one does not block classification.
    let creators = vec![999, COLLECTION_B];
    assert_eq!(stake(&mut pool, &vault, &cm, &mut user, &mut store, &creators, MINT_1, 0), Ok(()));
    assert_eq!(store.types, vec![2]);
}

#[test]
fn pause_gates_stake_and_unstake() {
    let (mut pool, vault, cm, mut user, mut store) = setup();
    let creators = vec![COLLECTION_A];
    assert_eq!(stake(&mut pool, &vault, &cm, &mut user, &mut store, &creators, MINT_1, 0), Ok(()));
    pause(&mut pool, AUTHORITY).unwrap();
    assert_eq!(
        stake(&mut pool, &vault, &cm, &mut user, &mut store, &creators, MINT_2, 10),
        Err(ErrorCode::PoolPaused)
    );
    assert_eq!(
        unstake(&mut pool, &vault, &cm, &mut user, &mut store, &creators, MINT_1, 10),
        Err(ErrorCode::PoolPaused)
    );
    assert_eq!(store.nft_mints, vec![MINT_1]);
    // Claiming is not gated by pause: it settles and pays out as usual. Ten
    // seconds at the initial default rate accrue more than the vault's
    // balance of 1000000, so the payout clamps to it.
    assert_eq!(claim(&pool, &vault, &cm, &mut user, &mut store, 1_000_000, 10), Ok(1_000_000));
    assert_eq!(store.reward_token_pending, 0);
}

#[test]
fn accrual_at_default_rate() {
    // A per-day rate of 864000 units is 10 units per second: one asset staked
    // at time 0 and settled at time 100 has earned exactly 1000 units.
    let (mut pool, vault, cm, mut user, mut store) = setup();
    set_reward_per_token(&mut pool, AUTHORITY, 864_000).unwrap();
    let creators = vec![COLLECTION_A];
    stake(&mut pool, &vault, &cm, &mut user, &mut store, &creators, MINT_1, 0).unwrap();
    assert_eq!(update_rewards(&pool, &mut user, &mut store, &vault, &cm, 100), Ok(()));
    assert_eq!(store.reward_token_pending, 1000);
    assert_eq!(store.staked_times, vec![100]);
    assert_eq!(user.last_update_time, 100);
}

#[test]
fn accrual_with_two_override_rates() {
    // Two assets from different collections with override rates 10 and 20
    // units per day, both staked at time 0 and settled one day later, earn
    // 10 + 20 = 30 units together.
    let (mut pool, vault, mut cm, mut user, mut store) = setup();
    set_candy_machine_reward_per_token(&pool, &mut cm, AUTHORITY, COLLECTION_A, 10).unwrap();
    set_candy_machine_reward_per_token(&pool, &mut cm, AUTHORITY, COLLECTION_B, 20).unwrap();
    stake(&mut pool, &vault, &cm, &mut user, &mut store, &vec![COLLECTION_A], MINT_1, 0).unwrap();
    stake(&mut pool, &vault, &cm, &mut user, &mut store, &vec![COLLECTION_B], MINT_2, 0).unwrap();
    assert_eq!(update_rewards(&pool, &mut user, &mut store, &vault, &cm, 86_400), Ok(()));
    assert_eq!(store.reward_token_pending, 30);
}

#[test]
fn accrual_truncates_sub_day_fragments() {
    // At 10 units per day, 100 seconds is worth less than one unit: the
    // truncating division pays nothing yet, and the clock still advances.
    let (mut pool, vault, mut cm, mut user, mut store) = setup();
    set_candy_machine_reward_per_token(&pool, &mut cm, AUTHORITY, COLLECTION_A, 10).unwrap();
    stake(&mut pool, &vault, &cm, &mut user, &mut store, &vec![COLLECTION_A], MINT_1, 0).unwrap();
    assert_eq!(update_rewards(&pool, &mut user, &mut store, &vault, &cm, 100), Ok(()));
    assert_eq!(store.reward_token_pending, 0);
    assert_eq!(store.staked_times, vec![100]);
}

#[test]
fn settlement_is_idempotent_on_zero_window() {
    let (mut pool, vault, cm, mut user, mut store) = setup();
    set_reward_per_token(&mut pool, AUTHORITY, 864_000).unwrap();
    stake(&mut pool, &vault, &cm, &mut user, &mut store, &vec![COLLECTION_A], MINT_1, 0).unwrap();
    update_rewards(&pool, &mut user, &mut store, &vault, &cm, 100).unwrap();
    let pending_after_first = store.reward_token_pending;
    // Settling again with no elapsed time adds nothing.
    assert_eq!(update_rewards(&pool, &mut user, &mut store, &vault, &cm, 100), Ok(()));
    assert_eq!(store.reward_token_pending, pending_after_first);
}

#[test]
fn removed_override_reverts_to_default_rate() {
    // The rate is re-resolved at each settlement from the stored class:
    // dropping the override mid-stake moves later windows to the default.
    let (mut pool, vault, mut cm, mut user, mut store) = setup();
    set_reward_per_token(&mut pool, AUTHORITY, 86_400).unwrap();
    set_candy_machine_reward_per_token(&pool, &mut cm, AUTHORITY, COLLECTION_A, 8_640_000).unwrap();
    stake(&mut pool, &vault, &cm, &mut user, &mut store, &vec![COLLECTION_A], MINT_1, 0).unwrap();
    // One second at the override rate of 100 units per second.
    update_rewards(&pool, &mut user, &mut store, &vault, &cm, 1).unwrap();
    assert_eq!(store.reward_token_pending, 100);
    remove_candy_machine_reward_per_token(&pool, &mut cm, AUTHORITY, COLLECTION_A).unwrap();
    // One more second, now at the default rate of 1 unit per second.
    update_rewards(&pool, &mut user, &mut store, &vault, &cm, 2).unwrap();
    assert_eq!(store.reward_token_pending, 101);
}

#[test]
fn claim_clamps_to_vault_balance() {
    // Pending 1000 against a vault holding 5: the payout is 5 and the whole
    // pending balance is reset to zero; the shortfall is forfeited.
    let (mut pool, vault, cm, mut user, mut store) = setup();
    set_reward_per_token(&mut pool, AUTHORITY, 864_000).unwrap();
    stake(&mut pool, &vault, &cm, &mut user, &mut store, &vec![COLLECTION_A], MINT_1, 0).unwrap();
    let payout = claim(&pool, &vault, &cm, &mut user, &mut store, 5, 100).unwrap();
    assert_eq!(payout, 5);
    assert_eq!(store.reward_token_pending, 0);
}

#[test]
fn claim_pays_in_full_when_covered() {
    let (mut pool, vault, cm, mut user, mut store) = setup();
    set_reward_per_token(&mut pool, AUTHORITY, 864_000).unwrap();
    stake(&mut pool, &vault, &cm, &mut user, &mut store, &vec![COLLECTION_A], MINT_1, 0).unwrap();
    let payout = claim(&pool, &vault, &cm, &mut user, &mut store, 1_000_000, 100).unwrap();
    assert_eq!(payout, 1000);
    assert_eq!(store.reward_token_pending, 0);
}

#[test]
fn claim_with_nothing_pending_still_settles() {
    let (pool, vault, cm, mut user, mut store) = setup();
    assert_eq!(claim(&pool, &vault, &cm, &mut user, &mut store, 500, 77), Ok(0));
    assert_eq!(store.reward_token_pending, 0);
    assert_eq!(user.last_update_time, 77);
}

#[test]
fn unstake_removes_entry_by_identity() {
    let (mut pool, vault, cm, mut user, mut store) = setup();
    let creators = vec![COLLECTION_A];
    stake(&mut pool, &vault, &cm, &mut user, &mut store, &creators, MINT_1, 0).unwrap();
    stake(&mut pool, &vault, &cm, &mut user, &mut store, &creators, MINT_2, 0).unwrap();
    assert_eq!(unstake(&mut pool, &vault, &cm, &mut user, &mut store, &creators, MINT_1, 10), Ok(()));
    assert_eq!(store.nft_mints, vec![MINT_2]);
    assert_eq!(store.types, vec![1]);
    assert_eq!(store.staked_times, vec![10]);
    assert_eq!(user.balance_staked, 1);
    assert_eq!(pool.balance_staked, 1);
}

#[test]
fn unstake_missing_asset_changes_nothing() {
    let (mut pool, vault, cm, mut user, mut store) = setup();
    let creators = vec![COLLECTION_A];
    stake(&mut pool, &vault, &cm, &mut user, &mut store, &creators, MINT_1, 0).unwrap();
    let pool_before = pool;
    let user_before = user;
    let store_before = store.clone();
    assert_eq!(
        unstake(&mut pool, &vault, &cm, &mut user, &mut store, &creators, MINT_2, 10),
        Err(ErrorCode::AssetNotFound)
    );
    assert_eq!(pool, pool_before);
    assert_eq!(user, user_before);
    assert_eq!(store, store_before);
}

#[test]
fn unstake_unknown_collection_is_rejected() {
    let (mut pool, vault, cm, mut user, mut store) = setup();
    stake(&mut pool, &vault, &cm, &mut user, &mut store, &vec![COLLECTION_A], MINT_1, 0).unwrap();
    assert_eq!(
        unstake(&mut pool, &vault, &cm, &mut user, &mut store, &vec![999], MINT_1, 10),
        Err(ErrorCode::CandyNotMatch)
    );
    assert_eq!(store.nft_mints, vec![MINT_1]);
}

#[test]
fn unstake_with_zeroed_counter_underflows() {
    let (mut pool, vault, cm, mut user, mut store) = setup();
    stake(&mut pool, &vault, &cm, &mut user, &mut store, &vec![COLLECTION_A], MINT_1, 0).unwrap();
    // A participant counter inconsistent with the ledger cannot go negative.
    user.balance_staked = 0;
    assert_eq!(
        unstake(&mut pool, &vault, &cm, &mut user, &mut store, &vec![COLLECTION_A], MINT_1, 10),
        Err(ErrorCode::ArithmeticUnderflow)
    );
    assert_eq!(store.nft_mints, vec![MINT_1]);
}

#[test]
fn clock_regression_is_fatal() {
    let (mut pool, vault, cm, mut user, mut store) = setup();
    stake(&mut pool, &vault, &cm, &mut user, &mut store, &vec![COLLECTION_A], MINT_1, 100).unwrap();
    let store_before = store.clone();
    assert_eq!(
        update_rewards(&pool, &mut user, &mut store, &vault, &cm, 50),
        Err(ErrorCode::InvalidClockReading)
    );
    assert_eq!(store, store_before);
}

#[test]
fn pending_balance_overflow_is_fatal() {
    let (mut pool, vault, cm, mut user, mut store) = setup();
    set_reward_per_token(&mut pool, AUTHORITY, 86_400).unwrap();
    stake(&mut pool, &vault, &cm, &mut user, &mut store, &vec![COLLECTION_A], MINT_1, 0).unwrap();
    store.reward_token_pending = u64::MAX;
    let store_before = store.clone();
    // One second accrues one more unit than the pending balance can take.
    assert_eq!(
        update_rewards(&pool, &mut user, &mut store, &vault, &cm, 1),
        Err(ErrorCode::ArithmeticOverflow)
    );
    assert_eq!(store, store_before);
}

#[test]
fn staked_counter_at_limit_overflows() {
    let (mut pool, vault, cm, mut user, mut store) = setup();
    pool.balance_staked = u64::MAX;
    assert_eq!(
        stake(&mut pool, &vault, &cm, &mut user, &mut store, &vec![COLLECTION_A], MINT_1, 0),
        Err(ErrorCode::ArithmeticOverflow)
    );
    assert!(store.nft_mints.is_empty());
}

#[test]
fn conservation_across_operations() {
    // The pool counter, the sum of the participant counters, and the total
    // number of ledger entries stay equal through stakes and unstakes.
    let (mut pool, mut vault) = initialize_pool(AUTHORITY, 0, 0, 10, 11);
    add_candy_machine(&pool, &mut vault, AUTHORITY, COLLECTION_A, 1).unwrap();
    let cm = create_candy_machine_reward_per_token(&pool, AUTHORITY, 0).unwrap();
    let creators = vec![COLLECTION_A];

    let (mut user_a, mut store_a1) = create_user(&mut pool, 1, OWNER, 0, 0, 0).unwrap();
    let mut store_a2 = j_nft_staking::user::create_user_store(&pool, &mut user_a, 0).unwrap();
    let (mut user_b, mut store_b1) = create_user(&mut pool, 1, 43, 0, 0, 0).unwrap();
    assert_eq!(pool.user_stake_count, 2);

    stake(&mut pool, &vault, &cm, &mut user_a, &mut store_a1, &creators, 1, 0).unwrap();
    stake(&mut pool, &vault, &cm, &mut user_a, &mut store_a1, &creators, 2, 0).unwrap();
    stake(&mut pool, &vault, &cm, &mut user_a, &mut store_a2, &creators, 3, 0).unwrap();
    stake(&mut pool, &vault, &cm, &mut user_b, &mut store_b1, &creators, 4, 0).unwrap();
    unstake(&mut pool, &vault, &cm, &mut user_a, &mut store_a1, &creators, 1, 5).unwrap();

    let entries = store_a1.nft_mints.len() + store_a2.nft_mints.len() + store_b1.nft_mints.len();
    assert_eq!(pool.balance_staked, 3);
    assert_eq!(user_a.balance_staked + user_b.balance_staked, 3);
    assert_eq!(entries as u64, 3);
}

#[test]
fn each_asset_referenced_at_most_once() {
    // With custody respected (every staked asset entered exactly one stake),
    // no asset identity appears in more than one ledger entry anywhere.
    let (mut pool, mut vault) = initialize_pool(AUTHORITY, 0, 0, 10, 11);
    add_candy_machine(&pool, &mut vault, AUTHORITY, COLLECTION_A, 1).unwrap();
    let cm = create_candy_machine_reward_per_token(&pool, AUTHORITY, 0).unwrap();
    let creators = vec![COLLECTION_A];

    let (mut user_a, mut store_a) = create_user(&mut pool, 1, OWNER, 0, 0, 0).unwrap();
    let (mut user_b, mut store_b) = create_user(&mut pool, 1, 43, 0, 0, 0).unwrap();
    stake(&mut pool, &vault, &cm, &mut user_a, &mut store_a, &creators, MINT_1, 0).unwrap();
    stake(&mut pool, &vault, &cm, &mut user_b, &mut store_b, &creators, MINT_2, 0).unwrap();

    for mint in [MINT_1, MINT_2] {
        let count = store_a.nft_mints.iter().filter(|m| **m == mint).count()
            + store_b.nft_mints.iter().filter(|m| **m == mint).count();
        assert_eq!(count, 1);
    }

    unstake(&mut pool, &vault, &cm, &mut user_a, &mut store_a, &creators, MINT_1, 5).unwrap();
    let count = store_a.nft_mints.iter().filter(|m| **m == MINT_1).count()
        + store_b.nft_mints.iter().filter(|m| **m == MINT_1).count();
    assert_eq!(count, 0);
}
