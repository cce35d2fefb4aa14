//! Small helpers for single bits inside the memory-mapped register bytes.
//!
//! Registers are modelled as plain bytes; a bit is addressed by its mask
//! (1, 2, 4, ..., 128) and read or replaced with ordinary arithmetic, which
//! keeps every contract in the same terms as the data model.

use vstd::prelude::*;

verus! {

/// Whether the bit selected by the power-of-two mask `m` is set in `v`.
pub open spec fn bit(v: u8, m: u8) -> bool {
    (v / m) % 2 == 1
}

/// `v` with the bit selected by the power-of-two mask `m` forced to `b`.
pub open spec fn with_bit(v: u8, m: u8, b: bool) -> u8 {
    if b {
        if bit(v, m) {
            v
        } else {
            (v + m) as u8
        }
    } else {
        if bit(v, m) {
            (v - m) as u8
        } else {
            v
        }
    }
}

/// `m` is one of the eight single-bit masks of a byte.
pub open spec fn is_mask(m: u8) -> bool {
    m == 1 || m == 2 || m == 4 || m == 8 || m == 16 || m == 32 || m == 64 || m == 128
}

/// Read the bit selected by the power-of-two mask `m`.
pub fn bit_of(v: u8, m: u8) -> (r: bool)
    requires
        m > 0,
    ensures
        r == bit(v, m),
{
    (v / m) % 2 == 1
}

/// Replace the bit selected by the power-of-two mask `m` with `b`.
pub fn set_bit(v: u8, m: u8, b: bool) -> (r: u8)
    requires
        is_mask(m),
    ensures
        r == with_bit(v, m, b),
{
    if b {
        if (v / m) % 2 == 1 {
            v
        } else {
            proof {
                lemma_bit_headroom(v, m);
            }
            v + m
        }
    } else {
        if (v / m) % 2 == 1 {
            v - m
        } else {
            v
        }
    }
}

/// A vector of `n` zero bytes.
pub fn zero_vec(n: usize) -> (r: Vec<u8>)
    ensures
        r@.len() == n,
        forall|i: int| 0 <= i < n ==> r@[i] == 0,
{
    let mut r: Vec<u8> = Vec::new();
    let mut i: usize = 0;
    while i < n
        invariant
            i <= n,
            r@.len() == i,
            forall|k: int| 0 <= k < i ==> r@[k] == 0,
        decreases n - i,
    {
        r.push(0);
        i = i + 1;
    }
    r
}

/// A byte whose bit at mask `m` is clear has room to add `m`.
pub proof fn lemma_bit_headroom(v: u8, m: u8)
    requires
        is_mask(m),
        !bit(v, m),
    ensures
        v + m <= 255,
{
    assert(v + m <= 255) by (nonlinear_arith)
        requires
            v <= 255,
            (v / m) % 2 != 1,
            (m == 1 || m == 2 || m == 4 || m == 8 || m == 16 || m == 32 || m == 64 || m == 128),
    ;
}


/// `v` with the bit at mask `m` additionally set when `b` holds.
pub open spec fn or_bit(v: u8, m: u8, b: bool) -> u8 {
    if b && !bit(v, m) {
        (v + m) as u8
    } else {
        v
    }
}

/// Set the bit at mask `m` when `b` holds, keeping the rest of the byte.
pub fn or_bit_of(v: u8, m: u8, b: bool) -> (r: u8)
    requires
        is_mask(m),
    ensures
        r == or_bit(v, m, b),
{
    if b && (v / m) % 2 != 1 {
        proof {
            lemma_bit_headroom(v, m);
        }
        v + m
    } else {
        v
    }
}

} // verus!
