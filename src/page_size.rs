use vstd::prelude::*;

verus! {

pub open spec fn is_pow2(n: nat) -> bool
    decreases n,
{
    if n == 0 {
        false
    } else if n == 1 {
        true
    } else {
        n % 2 == 0 && is_pow2(n / 2)
    }
}

/// The page size from what the system reported for it (`rc`, as the
/// system's configuration query returns it): `None` for a failed query (a
/// negative `rc`) or a value that is not a non-zero power of two.
pub fn get(rc: i64) -> (r: Option<usize>)
    ensures
        r is Some <==> rc > 0 && rc <= usize::MAX && is_pow2(rc as nat),
        r matches Some(p) ==> p as int == rc && p > 0,
{
    if rc <= 0 || rc as u64 > usize::MAX as u64 {
        return None;
    }
    let mut v: u64 = rc as u64;
    while v > 1 && v % 2 == 0
        invariant
            v > 0,
            is_pow2(v as nat) == is_pow2(rc as nat),
        decreases v,
    {
        v = v / 2;
    }
    if v == 1 {
        Some(rc as usize)
    } else {
        None
    }
}

} // verus!
