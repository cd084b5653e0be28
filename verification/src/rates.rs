use vstd::prelude::*;
use crate::errors::ErrorCode;
use crate::lookup::{first_match, lemma_first_match, position_u64, position_u8};
use crate::pool::Pool;
use crate::vault::Vault;

verus! {

/// The rate override registry: parallel sequences mapping a collection
/// identity to a collection-specific reward rate (units per staked asset per
/// 24-hour period). A collection absent from this table accrues at the
/// pool's default rate.
#[derive(Clone, Debug, PartialEq, Eq)]
pub struct CandyMachineRewardPerToken {
    /// Collection identities, unique; parallel to `reward_per_tokens`.
    pub candy_machines: Vec<u64>,
    /// Override rate for the collection at the same index.
    pub reward_per_tokens: Vec<u64>,
    /// Address-derivation nonce; opaque to the ledger logic.
    pub nonce: u8,
}

impl CandyMachineRewardPerToken {
    /// Well-formedness: the two columns run in parallel and each collection
    /// identity appears at most once.
    pub open spec fn wf(self) -> bool {
        &&& self.candy_machines@.len() == self.reward_per_tokens@.len()
        &&& forall|i: int, j: int|
            0 <= i < j < self.candy_machines@.len()
                ==> self.candy_machines@[i] != self.candy_machines@[j]
    }

    /// The override rate recorded for a collection identity, if any.
    pub open spec fn spec_override(self, candy_machine: u64) -> Option<u64> {
        let k = first_match(self.candy_machines@, candy_machine, 0);
        if k == -1 {
            None
        } else {
            Some(self.reward_per_tokens@[k])
        }
    }
}

/// Authority-only creation of an empty rate override registry. Refused while
/// the pool is paused.
pub fn create_candy_machine_reward_per_token(pool: &Pool, caller: u64, nonce: u8) -> (r: Result<
    CandyMachineRewardPerToken,
    ErrorCode,
>)
    ensures
        r is Ok <==> caller == pool.authority && !pool.paused,
        r == Err::<CandyMachineRewardPerToken, ErrorCode>(ErrorCode::Unauthorized) <==> caller
            != pool.authority,
        r == Err::<CandyMachineRewardPerToken, ErrorCode>(ErrorCode::PoolPaused) <==> caller
            == pool.authority && pool.paused,
        r is Ok ==> {
            let cm = r->Ok_0;
            &&& cm.candy_machines@.len() == 0
            &&& cm.reward_per_tokens@.len() == 0
            &&& cm.nonce == nonce
            &&& cm.wf()
        },
{
    if caller != pool.authority {
        return Err(ErrorCode::Unauthorized);
    }
    if pool.paused {
        return Err(ErrorCode::PoolPaused);
    }
    Ok(CandyMachineRewardPerToken {
        candy_machines: Vec::new(),
        reward_per_tokens: Vec::new(),
        nonce,
    })
}

/// Authority-only upsert into the rate override registry: every later
/// settlement of an asset from the collection `candy_machine` accrues at
/// `reward_per_token` units per day instead of the pool default.
pub fn set_candy_machine_reward_per_token(
    pool: &Pool,
    cm_reward_per_token: &mut CandyMachineRewardPerToken,
    caller: u64,
    candy_machine: u64,
    reward_per_token: u64,
) -> (r: Result<(), ErrorCode>)
    requires
        old(cm_reward_per_token).wf(),
    ensures
        final(cm_reward_per_token).wf(),
        r == Ok::<(), ErrorCode>(()) <==> caller == pool.authority && !pool.paused,
        r == Err::<(), ErrorCode>(ErrorCode::Unauthorized) <==> caller != pool.authority,
        r == Err::<(), ErrorCode>(ErrorCode::PoolPaused) <==> caller == pool.authority
            && pool.paused,
        r is Err ==> *final(cm_reward_per_token) == *old(cm_reward_per_token),
        r is Ok ==> ({
            let k = first_match(old(cm_reward_per_token).candy_machines@, candy_machine, 0);
            &&& k == -1 ==> {
                &&& final(cm_reward_per_token).candy_machines@ == old(
                    cm_reward_per_token,
                ).candy_machines@.push(candy_machine)
                &&& final(cm_reward_per_token).reward_per_tokens@ == old(
                    cm_reward_per_token,
                ).reward_per_tokens@.push(reward_per_token)
            }
            &&& k != -1 ==> {
                &&& final(cm_reward_per_token).candy_machines@ == old(
                    cm_reward_per_token,
                ).candy_machines@
                &&& final(cm_reward_per_token).reward_per_tokens@ == old(
                    cm_reward_per_token,
                ).reward_per_tokens@.update(k, reward_per_token)
            }
        }),
        r is Ok ==> final(cm_reward_per_token).spec_override(candy_machine) == Some(
            reward_per_token,
        ),
        final(cm_reward_per_token).nonce == old(cm_reward_per_token).nonce,
{
    if caller != pool.authority {
        return Err(ErrorCode::Unauthorized);
    }
    if pool.paused {
        return Err(ErrorCode::PoolPaused);
    }
    proof {
        lemma_first_match(cm_reward_per_token.candy_machines@, candy_machine, 0);
    }
    let index = position_u64(&cm_reward_per_token.candy_machines, candy_machine);
    match index {
        None => {
            cm_reward_per_token.candy_machines.push(candy_machine);
            cm_reward_per_token.reward_per_tokens.push(reward_per_token);
            proof {
                let olds = old(cm_reward_per_token).candy_machines@;
                let news = cm_reward_per_token.candy_machines@;
                lemma_first_match(news, candy_machine, 0);
                let k = first_match(news, candy_machine, 0);
                assert(news[olds.len() as int] == candy_machine);
                assert(k != -1);
                assert(k == olds.len());
            }
        },
        Some(i) => {
            cm_reward_per_token.reward_per_tokens[i] = reward_per_token;
        },
    }
    Ok(())
}

/// Authority-only removal of a collection's rate override. Absence of the
/// override is not an error; lookups for the collection revert to the pool
/// default rate.
pub fn remove_candy_machine_reward_per_token(
    pool: &Pool,
    cm_reward_per_token: &mut CandyMachineRewardPerToken,
    caller: u64,
    candy_machine: u64,
) -> (r: Result<(), ErrorCode>)
    requires
        old(cm_reward_per_token).wf(),
    ensures
        final(cm_reward_per_token).wf(),
        r == Ok::<(), ErrorCode>(()) <==> caller == pool.authority && !pool.paused,
        r == Err::<(), ErrorCode>(ErrorCode::Unauthorized) <==> caller != pool.authority,
        r == Err::<(), ErrorCode>(ErrorCode::PoolPaused) <==> caller == pool.authority
            && pool.paused,
        r is Err ==> *final(cm_reward_per_token) == *old(cm_reward_per_token),
        r is Ok ==> ({
            let k = first_match(old(cm_reward_per_token).candy_machines@, candy_machine, 0);
            &&& k == -1 ==> *final(cm_reward_per_token) == *old(cm_reward_per_token)
            &&& k != -1 ==> {
                &&& final(cm_reward_per_token).candy_machines@ == old(
                    cm_reward_per_token,
                ).candy_machines@.remove(k)
                &&& final(cm_reward_per_token).reward_per_tokens@ == old(
                    cm_reward_per_token,
                ).reward_per_tokens@.remove(k)
            }
        }),
        r is Ok ==> final(cm_reward_per_token).spec_override(candy_machine) is None,
        final(cm_reward_per_token).nonce == old(cm_reward_per_token).nonce,
{
    if caller != pool.authority {
        return Err(ErrorCode::Unauthorized);
    }
    if pool.paused {
        return Err(ErrorCode::PoolPaused);
    }
    proof {
        lemma_first_match(cm_reward_per_token.candy_machines@, candy_machine, 0);
    }
    let index = position_u64(&cm_reward_per_token.candy_machines, candy_machine);
    match index {
        None => Ok(()),
        Some(i) => {
            cm_reward_per_token.candy_machines.remove(i);
            cm_reward_per_token.reward_per_tokens.remove(i);
            proof {
                lemma_first_match(cm_reward_per_token.candy_machines@, candy_machine, 0);
            }
            Ok(())
        },
    }
}

/// The per-day rate in force for a stake entry tagged with reward class
/// `nft_type`: the override recorded for the first collection carrying that
/// class, if the membership table still knows the class and the override
/// registry has a rate for that collection; otherwise the pool default.
pub open spec fn spec_rate_for(
    pool: Pool,
    vault: Vault,
    cm: CandyMachineRewardPerToken,
    nft_type: u8,
) -> u64 {
    let i = first_match(vault.reward_types@, nft_type, 0);
    if i == -1 {
        pool.reward_per_token
    } else {
        match cm.spec_override(vault.candy_machines@[i]) {
            Some(rate) => rate,
            None => pool.reward_per_token,
        }
    }
}

/// Resolve the per-day rate for a stake entry's reward class against the
/// current membership table and override registry.
pub fn rate_for(
    pool: &Pool,
    vault: &Vault,
    cm: &CandyMachineRewardPerToken,
    nft_type: u8,
) -> (r: u64)
    requires
        vault.wf(),
        cm.wf(),
    ensures
        r == spec_rate_for(*pool, *vault, *cm, nft_type),
{
    let index = position_u8(&vault.reward_types, nft_type);
    match index {
        None => pool.reward_per_token,
        Some(i) => {
            proof {
                lemma_first_match(vault.reward_types@, nft_type, 0);
            }
            let candy_machine = vault.candy_machines[i];
            let j = position_u64(&cm.candy_machines, candy_machine);
            match j {
                None => pool.reward_per_token,
                Some(j) => {
                    proof {
                        lemma_first_match(cm.candy_machines@, candy_machine, 0);
                    }
                    cm.reward_per_tokens[j]
                },
            }
        },
    }
}

} // verus!
