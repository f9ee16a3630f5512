use vstd::prelude::*;

pub mod extractor;
pub mod geom;
pub mod morton;
pub mod source;
pub mod topology;

verus! {

/// Surface extraction failed.
#[derive(Debug, Copy, Clone, PartialEq, Eq, Structural)]
pub struct ExtractSurfaceError;

/// `2^k`.
pub open spec fn power_of_two(k: nat) -> nat
    decreases k,
{
    if k == 0 {
        1
    } else {
        2 * power_of_two((k - 1) as nat)
    }
}

pub open spec fn is_power_of_two(n: nat) -> bool {
    exists|k: nat| #[trigger] power_of_two(k) == n
}

proof fn lemma_power_of_two_monotone(j: nat, k: nat)
    requires
        k <= j,
    ensures
        power_of_two(k) <= power_of_two(j),
        power_of_two(j) >= 1,
    decreases j,
{
    if j > 0 {
        if k < j {
            lemma_power_of_two_monotone((j - 1) as nat, k);
        } else {
            lemma_power_of_two_monotone((j - 1) as nat, 0);
        }
    }
}

/// Whether `max_res` may be the finest resolution of an extraction: it must
/// be a power of two.
pub fn is_valid_resolution(max_res: u32) -> (r: bool)
    ensures
        r == is_power_of_two(max_res as nat),
{
    let mut p: u64 = 1;
    let ghost mut k: nat = 0;
    while p < max_res as u64
        invariant
            p == power_of_two(k),
            p >= 1,
            forall|j: nat| j < k ==> #[trigger] power_of_two(j) < max_res,
            p <= 2 * (max_res as u64) || p == 1,
        decreases 2 * (max_res as int) + 1 - (p as int),
    {
        p = p * 2;
        proof {
            k = k + 1;
        }
    }
    if p == max_res as u64 {
        true
    } else {
        assert forall|j: nat| #[trigger] power_of_two(j) != max_res by {
            if j >= k {
                lemma_power_of_two_monotone(j, k);
            }
        }
        false
    }
}

} // verus!
