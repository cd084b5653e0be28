use vstd::prelude::*;
use crate::errors::ErrorCode;
use crate::lookup::{first_match, lemma_first_match, position_u64};
use crate::pool::Pool;

verus! {

/// The collection membership table: parallel sequences mapping a collection
/// identity (the creator account of its candy machine) to the numeric reward
/// class assigned to assets from that collection. An asset is classified
/// against this table once, at stake time.
#[derive(Clone, Debug, PartialEq, Eq)]
pub struct Vault {
    /// Collection identities, unique; parallel to `reward_types`.
    pub candy_machines: Vec<u64>,
    /// Reward class for the collection at the same index.
    pub reward_types: Vec<u8>,
    /// Address-derivation nonce; opaque to the ledger logic.
    pub nonce: u8,
}

impl Vault {
    /// Well-formedness: the two columns run in parallel and each collection
    /// identity appears at most once.
    pub open spec fn wf(self) -> bool {
        &&& self.candy_machines@.len() == self.reward_types@.len()
        &&& forall|i: int, j: int|
            0 <= i < j < self.candy_machines@.len()
                ==> self.candy_machines@[i] != self.candy_machines@[j]
    }

    /// The reward class recorded for a collection identity, if any.
    pub open spec fn spec_classify(self, candy_machine: u64) -> Option<u8> {
        let k = first_match(self.candy_machines@, candy_machine, 0);
        if k == -1 {
            None
        } else {
            Some(self.reward_types@[k])
        }
    }
}

/// The reward class an asset resolves to from its declared creator list: the
/// class recorded for the first creator, in list order, that the membership
/// table knows as a collection identity; `None` when no creator is known.
pub open spec fn resolve_class(vault: Vault, creators: Seq<u64>) -> Option<u8>
    decreases creators.len(),
{
    if creators.len() == 0 {
        None
    } else {
        match vault.spec_classify(creators[0]) {
            Some(t) => Some(t),
            None => resolve_class(vault, creators.drop_first()),
        }
    }
}

/// Classify an asset at stake time: scan its declared creators in order and
/// return the reward class of the first one the membership table recognizes
/// as a collection identity.
pub fn classify_creators(vault: &Vault, creators: &Vec<u64>) -> (r: Option<u8>)
    requires
        vault.wf(),
    ensures
        r == resolve_class(*vault, creators@),
{
    let n = creators.len();
    proof {
        assert(creators@.skip(0) =~= creators@);
    }
    let mut i: usize = 0;
    while i < n
        invariant
            i <= n,
            n == creators@.len(),
            vault.wf(),
            resolve_class(*vault, creators@) == resolve_class(*vault, creators@.skip(i as int)),
        decreases n - i,
    {
        let c = creators[i];
        proof {
            assert(creators@.skip(i as int)[0] == c);
        }
        let k = position_u64(&vault.candy_machines, c);
        match k {
            Some(k) => {
                proof {
                    lemma_first_match(vault.candy_machines@, c, 0);
                }
                return Some(vault.reward_types[k]);
            },
            None => {
                proof {
                    assert(creators@.skip(i as int).drop_first() =~= creators@.skip(i as int + 1));
                }
            },
        }
        i = i + 1;
    }
    proof {
        assert(creators@.skip(n as int).len() == 0);
    }
    None
}

/// Authority-only upsert into the membership table: record `reward_type` as
/// the class of the collection `candy_machine`, appending a new row if the
/// collection is unknown and overwriting its class if it is already present.
pub fn add_candy_machine(
    pool: &Pool,
    vault: &mut Vault,
    caller: u64,
    candy_machine: u64,
    reward_type: u8,
) -> (r: Result<(), ErrorCode>)
    requires
        old(vault).wf(),
    ensures
        final(vault).wf(),
        r == Ok::<(), ErrorCode>(()) <==> caller == pool.authority && !pool.paused,
        r == Err::<(), ErrorCode>(ErrorCode::Unauthorized) <==> caller != pool.authority,
        r == Err::<(), ErrorCode>(ErrorCode::PoolPaused) <==> caller == pool.authority
            && pool.paused,
        r is Err ==> *final(vault) == *old(vault),
        r is Ok ==> ({
            let k = first_match(old(vault).candy_machines@, candy_machine, 0);
            &&& k == -1 ==> {
                &&& final(vault).candy_machines@ == old(vault).candy_machines@.push(candy_machine)
                &&& final(vault).reward_types@ == old(vault).reward_types@.push(reward_type)
            }
            &&& k != -1 ==> {
                &&& final(vault).candy_machines@ == old(vault).candy_machines@
                &&& final(vault).reward_types@ == old(vault).reward_types@.update(k, reward_type)
            }
        }),
        r is Ok ==> final(vault).spec_classify(candy_machine) == Some(reward_type),
        final(vault).nonce == old(vault).nonce,
{
    if caller != pool.authority {
        return Err(ErrorCode::Unauthorized);
    }
    if pool.paused {
        return Err(ErrorCode::PoolPaused);
    }
    proof {
        lemma_first_match(vault.candy_machines@, candy_machine, 0);
    }
    let index = position_u64(&vault.candy_machines, candy_machine);
    match index {
        None => {
            vault.candy_machines.push(candy_machine);
            vault.reward_types.push(reward_type);
            proof {
                let olds = old(vault).candy_machines@;
                let news = vault.candy_machines@;
                lemma_first_match(news, candy_machine, 0);
                let k = first_match(news, candy_machine, 0);
                assert(news[olds.len() as int] == candy_machine);
                assert(k != -1);
                assert(k == olds.len());
            }
        },
        Some(i) => {
            vault.reward_types[i] = reward_type;
        },
    }
    Ok(())
}

/// Authority-only removal of a collection from the membership table. Absence
/// of the collection is not an error; assets already staked keep the class
/// they were tagged with.
pub fn remove_candy_machine(
    pool: &Pool,
    vault: &mut Vault,
    caller: u64,
    candy_machine: u64,
) -> (r: Result<(), ErrorCode>)
    requires
        old(vault).wf(),
    ensures
        final(vault).wf(),
        r == Ok::<(), ErrorCode>(()) <==> caller == pool.authority && !pool.paused,
        r == Err::<(), ErrorCode>(ErrorCode::Unauthorized) <==> caller != pool.authority,
        r == Err::<(), ErrorCode>(ErrorCode::PoolPaused) <==> caller == pool.authority
            && pool.paused,
        r is Err ==> *final(vault) == *old(vault),
        r is Ok ==> ({
            let k = first_match(old(vault).candy_machines@, candy_machine, 0);
            &&& k == -1 ==> *final(vault) == *old(vault)
            &&& k != -1 ==> {
                &&& final(vault).candy_machines@ == old(vault).candy_machines@.remove(k)
                &&& final(vault).reward_types@ == old(vault).reward_types@.remove(k)
            }
        }),
        r is Ok ==> final(vault).spec_classify(candy_machine) is None,
        final(vault).nonce == old(vault).nonce,
{
    if caller != pool.authority {
        return Err(ErrorCode::Unauthorized);
    }
    if pool.paused {
        return Err(ErrorCode::PoolPaused);
    }
    proof {
        lemma_first_match(vault.candy_machines@, candy_machine, 0);
    }
    let index = position_u64(&vault.candy_machines, candy_machine);
    match index {
        None => Ok(()),
        Some(i) => {
            vault.candy_machines.remove(i);
            vault.reward_types.remove(i);
            proof {
                lemma_first_match(vault.candy_machines@, candy_machine, 0);
            }
            Ok(())
        },
    }
}

} // verus!
