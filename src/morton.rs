use crate::geom::BMask3;
use vstd::prelude::*;

verus! {

/// The number of 3-bit groups under the leading bit of a key: the depth of
/// the cell that it addresses.
pub open spec fn depth(k: nat) -> nat
    decreases k,
{
    if k < 8 {
        0
    } else {
        1 + depth(k / 8)
    }
}

/// The group above all full 3-bit groups of a key.
pub open spec fn lead(k: nat) -> nat
    decreases k,
{
    if k < 8 {
        k
    } else {
        lead(k / 8)
    }
}

/// A key addresses a cell iff a single 1 bit leads its 3-bit groups: the
/// root is 1, and each level below appends one corner mask.
pub open spec fn is_cell_key(k: nat) -> bool {
    lead(k) == 1
}

/// The largest key whose children still fit in 64 bits.
pub const CHILD_LIMIT: u64 = 0x1fff_ffff_ffff_ffff;

/// `8^n`.
pub open spec fn pow8(n: nat) -> nat
    decreases n,
{
    if n == 0 {
        1
    } else {
        8 * pow8((n - 1) as nat)
    }
}

proof fn lemma_depth_bound(k: nat, n: nat)
    requires
        k < 8 * pow8(n),
    ensures
        depth(k) <= n,
    decreases n,
{
    if k >= 8 {
        assert(n > 0);
        lemma_depth_bound(k / 8, (n - 1) as nat);
    }
}

/// Appending a corner to a cell's key gives a cell one level deeper, whose
/// parent is the cell again.
pub proof fn lemma_child_key(k: nat, m: nat)
    requires
        m < 8,
    ensures
        (k * 8 + m) / 8 == k,
        k >= 1 ==> depth(k * 8 + m) == depth(k) + 1,
        k >= 1 ==> (is_cell_key(k * 8 + m) <==> is_cell_key(k)),
{
    assert((k * 8 + m) / 8 == k) by (nonlinear_arith)
        requires
            m < 8,
    ;
    if k >= 1 {
        assert(k * 8 + m >= 8) by (nonlinear_arith)
            requires
                k >= 1,
        ;
    }
}

/// The path of a cell from the root, as a bit-packed key.
#[derive(Debug, Copy, Clone, PartialEq, Eq, Structural, Hash)]
pub struct MortonKey(u64);

impl View for MortonKey {
    type V = nat;

    closed spec fn view(&self) -> nat {
        self.0 as nat
    }
}

impl MortonKey {
    /// A key is its value: keys with equal values are equal.
    pub proof fn lemma_view_determines(a: MortonKey, b: MortonKey)
        ensures
            a@ == b@ <==> a == b,
    {
    }

    /// The deepest level that a key can address.
    pub const LEVELS: u32 = 21;

    pub fn root() -> (r: MortonKey)
        ensures
            r@ == 1,
            is_cell_key(r@),
            depth(r@) == 0,
    {
        MortonKey(1)
    }

    /// The key that addresses no cell.
    pub fn none() -> (r: MortonKey)
        ensures
            r@ == 0,
            !is_cell_key(r@),
    {
        MortonKey(0)
    }

    /// Whether the children of the addressed cell still have keys.
    pub fn has_child_keys(&self) -> (r: bool)
        ensures
            r == (self@ <= CHILD_LIMIT),
    {
        self.0 <= CHILD_LIMIT
    }

    pub fn is_none(&self) -> (r: bool)
        ensures
            r == (self@ == 0),
    {
        self.0 == 0
    }

    /// Whether the key addresses a cell.
    pub fn is_cell(&self) -> (r: bool)
        ensures
            r == is_cell_key(self@),
    {
        let mut k: u64 = self.0;
        while k >= 8
            invariant
                lead(k as nat) == lead(self@),
            decreases k,
        {
            k = k / 8;
        }
        k == 1
    }

    pub fn parent(&self) -> (r: MortonKey)
        ensures
            r@ == self@ / 8,
    {
        let k = self.0;
        let p = k >> 3u64;
        assert(p == k / 8) by (bit_vector)
            requires
                p == k >> 3u64,
        ;
        MortonKey(p)
    }

    /// The key one level down, at the given corner.
    pub fn child(&self, index: BMask3) -> (r: MortonKey)
        requires
            self@ <= CHILD_LIMIT,
        ensures
            r@ == self@ * 8 + index@,
    {
        let k = self.0;
        let m = index.bits() as u64;
        let c = (k << 3u64) | m;
        assert(c == k * 8 + m) by (bit_vector)
            requires
                c == (k << 3u64) | m,
                k <= 0x1fff_ffff_ffff_ffffu64,
                m < 8,
        ;
        MortonKey(c)
    }

    /// The depth of the addressed cell: the root has level 0.
    pub fn level(&self) -> (r: u32)
        ensures
            r == depth(self@),
            r <= Self::LEVELS,
    {
        proof {
            reveal_with_fuel(pow8, 22);
            lemma_depth_bound(self@, 21);
        }
        let mut k: u64 = self.0;
        let mut l: u32 = 0;
        while k >= 8
            invariant
                l + depth(k as nat) == depth(self@),
                depth(self@) <= 21,
            decreases k,
        {
            k = k / 8;
            l = l + 1;
        }
        l
    }
}

} // verus!
