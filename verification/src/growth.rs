//! The growable-buffer retry protocol shared by both enumeration loops.
//!
//! The host enumeration primitive fills a caller-supplied buffer and reports
//! how many bytes it needed. When the report is smaller than the buffer, the
//! pass is complete and the buffer is truncated to the exact entry count;
//! otherwise the slot count is doubled and the query retried. Doubling is
//! monotonic and reaches any finite demand in finitely many steps.

use vstd::prelude::*;

verus! {

/// Decision taken after one enumeration query: either retry with a doubled
/// slot count, or scan exactly the reported number of entries.
#[derive(Debug, Clone, Copy, PartialEq, Eq, Structural)]
pub enum BufferStep {
    Grow { slots: u32 },
    Scan { entries: u32 },
}

/// Whether the enumeration buffer must grow: the reported byte demand is not
/// below the buffer's current byte capacity.
pub open spec fn must_grow(needed_bytes: u32, slots: u32, entry_bytes: u32) -> bool {
    needed_bytes >= slots * entry_bytes
}

/// Decides one round of the retry protocol for a buffer of `slots` entries
/// of `entry_bytes` bytes each, after the primitive reported `needed_bytes`.
pub fn grow_or_scan(needed_bytes: u32, slots: u32, entry_bytes: u32) -> (r: BufferStep)
    requires
        1 <= entry_bytes,
        1 <= slots,
        slots * entry_bytes <= u32::MAX,
        must_grow(needed_bytes, slots, entry_bytes) ==> slots <= u32::MAX / 2,
    ensures
        !must_grow(needed_bytes, slots, entry_bytes) ==> r == (BufferStep::Scan {
            entries: needed_bytes / entry_bytes,
        }),
        must_grow(needed_bytes, slots, entry_bytes) ==> r == (BufferStep::Grow {
            slots: (2 * slots) as u32,
        }),
        r is Scan ==> r->entries < slots,
{
    if needed_bytes < slots * entry_bytes {
        proof {
            assert(needed_bytes / entry_bytes < slots) by (nonlinear_arith)
                requires
                    1 <= entry_bytes,
                    needed_bytes < slots * entry_bytes,
                    0 <= needed_bytes,
            ;
        }
        BufferStep::Scan { entries: needed_bytes / entry_bytes }
    } else {
        BufferStep::Grow { slots: 2 * slots }
    }
}

/// 2 to the power `k`.
pub open spec fn pow2(k: nat) -> nat
    decreases k,
{
    if k == 0 {
        1
    } else {
        2 * pow2((k - 1) as nat)
    }
}

pub proof fn lemma_pow2_pos(k: nat)
    ensures
        pow2(k) >= 1,
    decreases k,
{
    if k > 0 {
        lemma_pow2_pos((k - 1) as nat);
    }
}

pub proof fn lemma_pow2_exceeds(k: nat)
    ensures
        pow2(k) > k,
    decreases k,
{
    if k > 0 {
        lemma_pow2_exceeds((k - 1) as nat);
    }
}

/// The slot count after `k` doublings from an initial capacity of `init`.
pub open spec fn doubled(init: nat, k: nat) -> nat {
    init * pow2(k)
}

/// Buffer growth is strictly monotonic: every doubling enlarges the buffer.
pub proof fn lemma_growth_strictly_increases(init: nat, k: nat)
    requires
        init >= 1,
    ensures
        doubled(init, k) < doubled(init, k + 1),
{
    lemma_pow2_pos(k);
    let p = pow2(k);
    assert(pow2(k + 1) == 2 * p);
    assert(init * (2 * p) > init * p) by (nonlinear_arith)
        requires
            init >= 1,
            p >= 1,
    ;
}

/// Buffer growth terminates: from any positive initial capacity, repeated
/// doubling reaches a capacity at or above any finite entry count `n` after
/// finitely many rounds.
pub proof fn lemma_growth_reaches(init: nat, n: nat)
    requires
        init >= 1,
    ensures
        exists|k: nat| doubled(init, k) >= n,
{
    lemma_pow2_exceeds(n);
    let p = pow2(n);
    assert(init * p >= p) by (nonlinear_arith)
        requires
            init >= 1,
            p >= 0,
    ;
    assert(doubled(init, n) >= n);
}

} // verus!
