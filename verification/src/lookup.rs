use vstd::prelude::*;

verus! {

/// Index of the first occurrence of `x` in `s` at position `from` or later,
/// or -1 if there is none. The registry and membership tables and the ledger
/// are parallel sequences keyed by first match, so every lookup below is
/// stated through this function.
pub open spec fn first_match<A>(s: Seq<A>, x: A, from: int) -> int
    decreases s.len() - from,
{
    if from < 0 || from >= s.len() {
        -1
    } else if s[from] == x {
        from
    } else {
        first_match(s, x, from + 1)
    }
}

/// What a first-match index means: either -1 and no occurrence at `from` or
/// later, or an in-range index holding `x` with no occurrence between `from`
/// and it.
pub proof fn lemma_first_match<A>(s: Seq<A>, x: A, from: int)
    requires
        0 <= from <= s.len(),
    ensures
        first_match(s, x, from) == -1 ==> forall|j: int| from <= j < s.len() ==> s[j] != x,
        first_match(s, x, from) != -1 ==> {
            let k = first_match(s, x, from);
            &&& from <= k < s.len()
            &&& s[k] == x
            &&& forall|j: int| from <= j < k ==> s[j] != x
        },
    decreases s.len() - from,
{
    if from < s.len() && s[from] != x {
        lemma_first_match(s, x, from + 1);
    }
}

/// Index of the first element of `v` equal to `x`, if any.
pub fn position_u64(v: &Vec<u64>, x: u64) -> (r: Option<usize>)
    ensures
        match r {
            Some(k) => first_match(v@, x, 0) == k,
            None => first_match(v@, x, 0) == -1,
        },
{
    let n = v.len();
    let mut i: usize = 0;
    while i < n
        invariant
            0 <= i <= n,
            n == v@.len(),
            first_match(v@, x, 0) == first_match(v@, x, i as int),
        decreases n - i,
    {
        if v[i] == x {
            return Some(i);
        }
        i = i + 1;
    }
    None
}

/// Index of the first element of `v` equal to `x`, if any.
pub fn position_u8(v: &Vec<u8>, x: u8) -> (r: Option<usize>)
    ensures
        match r {
            Some(k) => first_match(v@, x, 0) == k,
            None => first_match(v@, x, 0) == -1,
        },
{
    let n = v.len();
    let mut i: usize = 0;
    while i < n
        invariant
            0 <= i <= n,
            n == v@.len(),
            first_match(v@, x, 0) == first_match(v@, x, i as int),
        decreases n - i,
    {
        if v[i] == x {
            return Some(i);
        }
        i = i + 1;
    }
    None
}

} // verus!
