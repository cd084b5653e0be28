use vstd::prelude::*;
use crate::pool::Pool;
use crate::user::{User, UserStore};

verus! {

/// Sum of `f` over the elements of `s`.
pub open spec fn sum_by<A>(s: Seq<A>, f: spec_fn(A) -> int) -> int
    decreases s.len(),
{
    if s.len() == 0 {
        0
    } else {
        sum_by(s.drop_last(), f) + f(s.last())
    }
}

/// Appending an element adds its weight to the sum.
pub proof fn lemma_sum_by_push<A>(s: Seq<A>, f: spec_fn(A) -> int, x: A)
    ensures
        sum_by(s.push(x), f) == sum_by(s, f) + f(x),
{
    assert(s.push(x).drop_last() =~= s);
    assert(s.push(x).last() == x);
}

/// Replacing one element shifts the sum by the difference of the weights.
pub proof fn lemma_sum_by_update<A>(s: Seq<A>, f: spec_fn(A) -> int, i: int, v: A)
    requires
        0 <= i < s.len(),
    ensures
        sum_by(s.update(i, v), f) == sum_by(s, f) - f(s[i]) + f(v),
    decreases s.len(),
{
    let t = s.update(i, v);
    if i == s.len() - 1 {
        assert(t.drop_last() =~= s.drop_last());
        assert(t.last() == v);
    } else {
        assert(t.drop_last() =~= s.drop_last().update(i, v));
        assert(t.last() == s.last());
        lemma_sum_by_update(s.drop_last(), f, i, v);
    }
}

/// Removing one element takes its weight out of the sum.
pub proof fn lemma_sum_by_remove<A>(s: Seq<A>, f: spec_fn(A) -> int, i: int)
    requires
        0 <= i < s.len(),
    ensures
        sum_by(s.remove(i), f) == sum_by(s, f) - f(s[i]),
    decreases s.len(),
{
    let t = s.remove(i);
    if i == s.len() - 1 {
        assert(t =~= s.drop_last());
    } else {
        assert(t.drop_last() =~= s.drop_last().remove(i));
        assert(t.last() == s.last());
        lemma_sum_by_remove(s.drop_last(), f, i);
    }
}

/// Total assets staked according to the participant records.
pub open spec fn sum_user_staked(users: Seq<User>) -> int {
    sum_by(users, |u: User| u.balance_staked as int)
}

/// Total stake entries held across a set of ledger segments.
pub open spec fn sum_store_entries(stores: Seq<UserStore>) -> int {
    sum_by(stores, |st: UserStore| st.nft_mints@.len() as int)
}

/// How many entries of one segment reference the asset `nft_mint`.
pub open spec fn count_in_store(store: UserStore, nft_mint: u64) -> int {
    sum_by(
        store.nft_mints@,
        |m: u64|
            if m == nft_mint {
                1int
            } else {
                0int
            },
    )
}

/// How many ledger entries across all segments reference the asset
/// `nft_mint`.
pub open spec fn count_staked(stores: Seq<UserStore>, nft_mint: u64) -> int {
    sum_by(stores, |st: UserStore| count_in_store(st, nft_mint))
}

/// Conservation: the pool's staked-asset counter equals the sum of the
/// participants' counters, which equals the total number of ledger entries;
/// and the pool's participant counter equals the number of participant
/// records.
pub open spec fn conservation(pool: Pool, users: Seq<User>, stores: Seq<UserStore>) -> bool {
    &&& pool.balance_staked == sum_user_staked(users)
    &&& pool.balance_staked == sum_store_entries(stores)
    &&& pool.user_stake_count == users.len()
}

/// No double stake: no asset identity is referenced by more than one ledger
/// entry across the whole system.
pub open spec fn no_double_stake(stores: Seq<UserStore>) -> bool {
    forall|m: u64| #[trigger] count_staked(stores, m) <= 1
}

/// Law: a stake preserves conservation. Staking touches one participant
/// record `ui` and one segment `si`: the segment gains one entry, the
/// participant's counter and the pool's counter each go up by one, and the
/// participant count is untouched — so the three tallies stay equal.
pub proof fn law_conservation_stake(
    pool1: Pool,
    pool2: Pool,
    users1: Seq<User>,
    users2: Seq<User>,
    stores1: Seq<UserStore>,
    stores2: Seq<UserStore>,
    ui: int,
    si: int,
)
    requires
        conservation(pool1, users1, stores1),
        0 <= ui < users1.len(),
        0 <= si < stores1.len(),
        users2 == users1.update(ui, users2[ui]),
        users2[ui].balance_staked == users1[ui].balance_staked + 1,
        stores2 == stores1.update(si, stores2[si]),
        stores2[si].nft_mints@.len() == stores1[si].nft_mints@.len() + 1,
        pool2.balance_staked == pool1.balance_staked + 1,
        pool2.user_stake_count == pool1.user_stake_count,
    ensures
        conservation(pool2, users2, stores2),
{
    lemma_sum_by_update(users1, |u: User| u.balance_staked as int, ui, users2[ui]);
    lemma_sum_by_update(stores1, |st: UserStore| st.nft_mints@.len() as int, si, stores2[si]);
}

/// Law: an unstake preserves conservation. The segment loses one entry and
/// the participant's and pool's counters each go down by one.
pub proof fn law_conservation_unstake(
    pool1: Pool,
    pool2: Pool,
    users1: Seq<User>,
    users2: Seq<User>,
    stores1: Seq<UserStore>,
    stores2: Seq<UserStore>,
    ui: int,
    si: int,
)
    requires
        conservation(pool1, users1, stores1),
        0 <= ui < users1.len(),
        0 <= si < stores1.len(),
        users2 == users1.update(ui, users2[ui]),
        users2[ui].balance_staked + 1 == users1[ui].balance_staked,
        stores2 == stores1.update(si, stores2[si]),
        stores2[si].nft_mints@.len() + 1 == stores1[si].nft_mints@.len(),
        pool2.balance_staked + 1 == pool1.balance_staked,
        pool2.user_stake_count == pool1.user_stake_count,
    ensures
        conservation(pool2, users2, stores2),
{
    lemma_sum_by_update(users1, |u: User| u.balance_staked as int, ui, users2[ui]);
    lemma_sum_by_update(stores1, |st: UserStore| st.nft_mints@.len() as int, si, stores2[si]);
}

/// Law: registering a participant preserves conservation. A new participant
/// record with nothing staked and a new empty segment join the system, and
/// the participant count goes up by one.
pub proof fn law_conservation_create_user(
    pool1: Pool,
    pool2: Pool,
    users1: Seq<User>,
    stores1: Seq<UserStore>,
    new_user: User,
    new_store: UserStore,
)
    requires
        conservation(pool1, users1, stores1),
        new_user.balance_staked == 0,
        new_store.nft_mints@.len() == 0,
        pool2.balance_staked == pool1.balance_staked,
        pool2.user_stake_count == pool1.user_stake_count + 1,
    ensures
        conservation(pool2, users1.push(new_user), stores1.push(new_store)),
{
    lemma_sum_by_push(users1, |u: User| u.balance_staked as int, new_user);
    lemma_sum_by_push(stores1, |st: UserStore| st.nft_mints@.len() as int, new_store);
}

/// Law: opening one more ledger segment preserves conservation. The
/// participant record changes only in fields outside the staked counter, and
/// an empty segment joins the system.
pub proof fn law_conservation_create_user_store(
    pool: Pool,
    users1: Seq<User>,
    users2: Seq<User>,
    stores1: Seq<UserStore>,
    new_store: UserStore,
    ui: int,
)
    requires
        conservation(pool, users1, stores1),
        0 <= ui < users1.len(),
        users2 == users1.update(ui, users2[ui]),
        users2[ui].balance_staked == users1[ui].balance_staked,
        new_store.nft_mints@.len() == 0,
    ensures
        conservation(pool, users2, stores1.push(new_store)),
{
    lemma_sum_by_update(users1, |u: User| u.balance_staked as int, ui, users2[ui]);
    lemma_sum_by_push(stores1, |st: UserStore| st.nft_mints@.len() as int, new_store);
}

/// Law: destroying an emptied participant record preserves conservation.
/// Closing requires the participant to have nothing staked, so the tallies
/// lose only a zero; the participant count goes down by one.
pub proof fn law_conservation_close_user(
    pool1: Pool,
    pool2: Pool,
    users1: Seq<User>,
    stores1: Seq<UserStore>,
    ui: int,
)
    requires
        conservation(pool1, users1, stores1),
        0 <= ui < users1.len(),
        users1[ui].balance_staked == 0,
        pool2.balance_staked == pool1.balance_staked,
        pool2.user_stake_count + 1 == pool1.user_stake_count,
    ensures
        conservation(pool2, users1.remove(ui), stores1),
{
    lemma_sum_by_remove(users1, |u: User| u.balance_staked as int, ui);
}

/// Law: destroying an emptied ledger segment preserves conservation. Closing
/// requires the segment to hold no entries, so the entry tally loses only a
/// zero; the owning participant record changes only in fields outside the
/// staked counter.
pub proof fn law_conservation_close_user_store(
    pool: Pool,
    users1: Seq<User>,
    users2: Seq<User>,
    stores1: Seq<UserStore>,
    ui: int,
    si: int,
)
    requires
        conservation(pool, users1, stores1),
        0 <= ui < users1.len(),
        0 <= si < stores1.len(),
        users2 == users1.update(ui, users2[ui]),
        users2[ui].balance_staked == users1[ui].balance_staked,
        stores1[si].nft_mints@.len() == 0,
    ensures
        conservation(pool, users2, stores1.remove(si)),
{
    lemma_sum_by_update(users1, |u: User| u.balance_staked as int, ui, users2[ui]);
    lemma_sum_by_remove(stores1, |st: UserStore| st.nft_mints@.len() as int, si);
}

/// Law: a stake cannot double-stake. If an asset is referenced nowhere and a
/// stake appends it to one segment, it is referenced exactly once afterwards,
/// and every other asset's reference count is untouched — custody guarantees
/// the hypothesis, since an asset already held by the pool's vault cannot be
/// transferred in again.
pub proof fn law_no_double_stake_stake(
    stores1: Seq<UserStore>,
    stores2: Seq<UserStore>,
    si: int,
    nft_mint: u64,
)
    requires
        no_double_stake(stores1),
        count_staked(stores1, nft_mint) == 0,
        0 <= si < stores1.len(),
        stores2 == stores1.update(si, stores2[si]),
        stores2[si].nft_mints@ == stores1[si].nft_mints@.push(nft_mint),
    ensures
        no_double_stake(stores2),
        count_staked(stores2, nft_mint) == 1,
        forall|m: u64| m != nft_mint ==> count_staked(stores2, m) == #[trigger] count_staked(
            stores1,
            m,
        ),
{
    assert forall|m: u64| #[trigger] count_staked(stores2, m) == count_staked(stores1, m) + (
    if m == nft_mint {
        1int
    } else {
        0int
    }) by {
        lemma_sum_by_push(
            stores1[si].nft_mints@,
            |x: u64|
                if x == m {
                    1int
                } else {
                    0int
                },
            nft_mint,
        );
        lemma_sum_by_update(stores1, |st: UserStore| count_in_store(st, m), si, stores2[si]);
    }
}

/// Law: an unstake cannot create a double stake. Removing one entry from one
/// segment lowers the removed asset's reference count by one and leaves every
/// other count as it was.
pub proof fn law_no_double_stake_unstake(
    stores1: Seq<UserStore>,
    stores2: Seq<UserStore>,
    si: int,
    k: int,
)
    requires
        no_double_stake(stores1),
        0 <= si < stores1.len(),
        0 <= k < stores1[si].nft_mints@.len(),
        stores2 == stores1.update(si, stores2[si]),
        stores2[si].nft_mints@ == stores1[si].nft_mints@.remove(k),
    ensures
        no_double_stake(stores2),
        forall|m: u64| #[trigger] count_staked(stores2, m) == count_staked(stores1, m) - (
        if stores1[si].nft_mints@[k] == m {
            1int
        } else {
            0int
        }),
{
    assert forall|m: u64| #[trigger] count_staked(stores2, m) == count_staked(stores1, m) - (
    if stores1[si].nft_mints@[k] == m {
        1int
    } else {
        0int
    }) by {
        lemma_sum_by_remove(
            stores1[si].nft_mints@,
            |x: u64|
                if x == m {
                    1int
                } else {
                    0int
                },
            k,
        );
        lemma_sum_by_update(stores1, |st: UserStore| count_in_store(st, m), si, stores2[si]);
    }
}

/// Law: a settlement or a claim cannot change which assets are staked where.
/// A rewrite of one segment that keeps its entry list keeps every asset's
/// reference count.
pub proof fn law_no_double_stake_settle(stores1: Seq<UserStore>, stores2: Seq<UserStore>, si: int)
    requires
        no_double_stake(stores1),
        0 <= si < stores1.len(),
        stores2 == stores1.update(si, stores2[si]),
        stores2[si].nft_mints@ == stores1[si].nft_mints@,
    ensures
        no_double_stake(stores2),
        forall|m: u64| #[trigger] count_staked(stores2, m) == count_staked(stores1, m),
{
    assert forall|m: u64| #[trigger] count_staked(stores2, m) == count_staked(stores1, m) by {
        lemma_sum_by_update(stores1, |st: UserStore| count_in_store(st, m), si, stores2[si]);
    }
}

/// Law: a new empty segment, or the removal of an empty one, keeps every
/// asset's reference count; re-segmenting a ledger cannot double-stake.
pub proof fn law_no_double_stake_segments(
    stores1: Seq<UserStore>,
    new_store: UserStore,
    si: int,
)
    requires
        no_double_stake(stores1),
        new_store.nft_mints@.len() == 0,
        0 <= si < stores1.len(),
        stores1[si].nft_mints@.len() == 0,
    ensures
        no_double_stake(stores1.push(new_store)),
        no_double_stake(stores1.remove(si)),
{
    assert forall|m: u64| #[trigger] count_staked(stores1.push(new_store), m) <= 1 by {
        lemma_sum_by_push(stores1, |st: UserStore| count_in_store(st, m), new_store);
        assert(count_in_store(new_store, m) == 0);
        assert(count_staked(stores1.push(new_store), m) == count_staked(stores1, m));
        assert(count_staked(stores1, m) <= 1);
    }
    assert forall|m: u64| #[trigger] count_staked(stores1.remove(si), m) <= 1 by {
        lemma_sum_by_remove(stores1, |st: UserStore| count_in_store(st, m), si);
        assert(count_in_store(stores1[si], m) == 0);
        assert(count_staked(stores1.remove(si), m) == count_staked(stores1, m));
        assert(count_staked(stores1, m) <= 1);
    }
}

} // verus!
