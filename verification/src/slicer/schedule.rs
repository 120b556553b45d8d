//! Wall-clock scheduling — sum durations across sorties.

use vstd::prelude::*;

use crate::domain::plan::FleetSchedule;
use crate::protocol::Sortie;

verus! {

/// Sum of the expected durations of `sorties`.
pub open spec fn total_duration<W>(sorties: Seq<Sortie<W>>) -> int
    decreases sorties.len(),
{
    if sorties.len() == 0 {
        0
    } else {
        total_duration(sorties.drop_last()) + sorties.last().expected_duration_s
    }
}

/// The total of a prefix of the sorties is non-negative and at most the
/// total of all of them.
pub proof fn lemma_total_duration_prefix<W>(sorties: Seq<Sortie<W>>, k: int)
    requires
        0 <= k <= sorties.len(),
    ensures
        0 <= total_duration(sorties.take(k)) <= total_duration(sorties),
    decreases sorties.len() - k,
{
    if k < sorties.len() {
        lemma_total_duration_prefix(sorties, k + 1);
        assert(sorties.take(k + 1).drop_last() =~= sorties.take(k));
    } else {
        assert(sorties.take(k) =~= sorties);
    }
    lemma_total_duration_nonneg(sorties.take(k));
}

proof fn lemma_total_duration_nonneg<W>(sorties: Seq<Sortie<W>>)
    ensures
        total_duration(sorties) >= 0,
    decreases sorties.len(),
{
    if sorties.len() > 0 {
        lemma_total_duration_nonneg(sorties.drop_last());
    }
}

/// Sum of the expected durations, in seconds.
pub fn sum_durations<W>(sorties: &[Sortie<W>]) -> (r: u64)
    requires
        total_duration(sorties@) <= u64::MAX,
    ensures
        r == total_duration(sorties@),
{
    let mut total: u64 = 0;
    let n = sorties.len();
    proof {
        lemma_total_duration_prefix(sorties@, 0);
        assert(sorties@.take(0) =~= Seq::<Sortie<W>>::empty());
    }
    for k in 0..n
        invariant
            n == sorties@.len(),
            total_duration(sorties@) <= u64::MAX,
            total == total_duration(sorties@.take(k as int)),
    {
        proof {
            assert(sorties@.take(k + 1).drop_last() =~= sorties@.take(k as int));
            lemma_total_duration_prefix(sorties@, k + 1);
        }
        total = total + sorties[k].expected_duration_s as u64;
    }
    assert(sorties@.take(n as int) =~= sorties@);
    total
}

/// `n` as a `u32`, saturating at `u32::MAX`.
pub open spec fn saturating_count(n: int) -> u32 {
    if n <= u32::MAX {
        n as u32
    } else {
        u32::MAX
    }
}

/// A count as a `u32`, saturating at `u32::MAX`.
pub fn count_u32(n: usize) -> (r: u32)
    ensures
        r == saturating_count(n as int),
{
    if n <= 0xffff_ffff {
        n as u32
    } else {
        0xffff_ffff
    }
}

/// The fleet schedule of the sorties: their number, their total duration,
/// one drone at peak when there is any sortie, and no refill cycles.
pub fn build<W>(sorties: &[Sortie<W>]) -> (r: FleetSchedule)
    requires
        total_duration(sorties@) <= u64::MAX,
    ensures
        r.total_sorties == saturating_count(sorties@.len() as int),
        r.total_duration_s == total_duration(sorties@),
        r.peak_concurrent_drones == if sorties@.len() > 0 {
            1u32
        } else {
            0u32
        },
        r.refill_cycles == 0,
{
    let total_sorties = count_u32(sorties.len());
    let total_duration_s = sum_durations(sorties);
    let peak_concurrent_drones: u32 = if sorties.len() > 0 {
        1
    } else {
        0
    };
    FleetSchedule { total_sorties, total_duration_s, peak_concurrent_drones, refill_cycles: 0 }
}

} // verus!
