//! Sortie packing — bundle spray passes into per-drone sorties.
//!
//! Passes are distributed across drones in contiguous chunks (not round
//! robin) so adjacent drones work on adjacent strips of the surface: drone
//! `i` gets `n / d` passes, plus one more when `i < n % d`. Each drone gets
//! at most one sortie; drones beyond the number of passes get none.

use vstd::prelude::*;

use crate::domain::fleet::Drone;
use crate::domain::plan::{uuid_now_v7, uuid_to_text, PlanId};
use crate::domain::uuid_text::{lemma_uuid_text_round_trip, nibble, uuid_hyphenated, uuid_text_value};
use crate::text::joined;

verus! {

/// The passes assigned to one drone, before step assembly. `P` is the
/// pass payload.
#[derive(Debug)]
pub struct RawSortie<P> {
    pub sortie_id: String,
    pub plan_id: PlanId,
    pub drone_id: String,
    pub sortie_index: u32,
    pub passes: Vec<P>,
}

/// Number of passes given to drone `i` when `n` passes go to `d` drones.
pub open spec fn chunk_len(n: int, d: int, i: int) -> int {
    n / d + if i < n % d {
        1int
    } else {
        0int
    }
}

/// Position of the first pass given to drone `i`.
pub open spec fn chunk_start(n: int, d: int, i: int) -> int {
    i * (n / d) + if i < n % d {
        i
    } else {
        n % d
    }
}

/// Number of sorties produced for `n` passes and `d` drones.
pub open spec fn sortie_count(n: int, d: int) -> int {
    if n == 0 || d == 0 {
        0
    } else if d <= n {
        d
    } else {
        n
    }
}

/// The sortie id of a UUID value: `sortie-` followed by its hyphenated text.
pub open spec fn sortie_id_text(v: u128) -> Seq<char> {
    "sortie-"@ + uuid_hyphenated(v)
}

/// The UUID value a sortie id carries (0 for text that is not one).
pub open spec fn sortie_id_value(s: Seq<char>) -> u128 {
    match uuid_text_value(s.subrange(7, s.len() as int)) {
        Some(v) => v,
        None => 0,
    }
}

/// A version-7 UUID value of the RFC 4122 variant.
pub open spec fn is_v7(v: u128) -> bool {
    nibble(v, 12) == 7 && nibble(v, 16) / 4 == 2
}

/// Reading the value back from a sortie id gives the value.
proof fn lemma_sortie_id_value(v: u128)
    ensures
        sortie_id_value(sortie_id_text(v)) == v,
{
    reveal_strlit("sortie-");
    let t = sortie_id_text(v);
    assert(t.subrange(7, t.len() as int) =~= uuid_hyphenated(v));
    lemma_uuid_text_round_trip(v);
}

/// Largest value below every version-7 UUID value: the version digit 7
/// keeps the top 52 bits below all ones.
pub open spec fn v7_ceiling() -> int {
    0xffff_ffff_ffff_f000_0000_0000_0000_0000int
}

/// A value whose version digit is 7 lies below [`v7_ceiling`].
proof fn lemma_v7_below_ceiling(v: u128)
    requires
        nibble(v, 12) == 7,
    ensures
        (v as int) < v7_ceiling(),
{
    let p = vstd::arithmetic::power::pow(16, 19);
    assert(p == 0x1000_0000_0000_0000_0000int) by {
        reveal_with_fuel(vstd::arithmetic::power::pow, 20);
    }
    let q = v as int / p;
    let r = v as int % p;
    vstd::arithmetic::div_mod::lemma_fundamental_div_mod(v as int, p);
    assert(0 <= r < p);
    assert(q % 16 == 7);
    assert(q < 0x10_0000_0000_0000int) by (nonlinear_arith)
        requires
            v as int == p * q + r,
            0 <= r,
            p == 0x1000_0000_0000_0000_0000int,
            (v as int) < 0x1_0000_0000_0000_0000_0000_0000_0000_0000int,
    ;
    assert(q >= 0) by (nonlinear_arith)
        requires
            v as int == p * q + r,
            r < p,
            p > 0,
            v >= 0,
    ;
    assert(q != 0xf_ffff_ffff_ffffint);
    assert(q <= 0xf_ffff_ffff_fffeint);
    assert((v as int) < 0xffff_ffff_ffff_f000_0000_0000_0000_0000int) by (nonlinear_arith)
        requires
            v as int == p * q + r,
            r < p,
            p == 0x1000_0000_0000_0000_0000int,
            q <= 0xf_ffff_ffff_fffeint,
    ;
}

/// Different values give different sortie ids.
proof fn lemma_sortie_id_injective(x: u128, y: u128)
    requires
        x != y,
    ensures
        "sortie-"@ + uuid_hyphenated(x) != "sortie-"@ + uuid_hyphenated(y),
{
    let a = "sortie-"@ + uuid_hyphenated(x);
    let b = "sortie-"@ + uuid_hyphenated(y);
    if a == b {
        let k = "sortie-"@.len() as int;
        assert(a.subrange(k, a.len() as int) =~= uuid_hyphenated(x));
        assert(b.subrange(k, b.len() as int) =~= uuid_hyphenated(y));
        lemma_uuid_text_round_trip(x);
        lemma_uuid_text_round_trip(y);
    }
}

proof fn lemma_chunk_step(n: int, d: int, i: int)
    requires
        0 < d,
        0 <= n,
        0 <= i,
    ensures
        chunk_start(n, d, i + 1) == chunk_start(n, d, i) + chunk_len(n, d, i),
{
    let b = n / d;
    assert((i + 1) * b == i * b + b) by (nonlinear_arith);
}

proof fn lemma_chunks_cover(n: int, d: int)
    requires
        0 < d,
        0 < n,
    ensures
        chunk_start(n, d, sortie_count(n, d)) == n,
        forall|i: int| 0 <= i < sortie_count(n, d) ==> #[trigger] chunk_len(n, d, i) >= 1,
        forall|i: int| 0 <= i <= sortie_count(n, d) ==> 0 <= #[trigger] chunk_start(n, d, i) <= n,
{
    let b = n / d;
    let r = n % d;
    vstd::arithmetic::div_mod::lemma_fundamental_div_mod(n, d);
    assert(0 <= r < d);
    assert(b >= 0) by {
        vstd::arithmetic::div_mod::lemma_div_pos_is_pos(n, d);
    }
    let c = sortie_count(n, d);
    if d <= n {
        assert(b >= 1) by {
            vstd::arithmetic::div_mod::lemma_div_non_zero(n, d);
        }
        assert(d * b == b * d) by (nonlinear_arith);
        assert(chunk_start(n, d, c) == n);
    } else {
        vstd::arithmetic::div_mod::lemma_basic_div_specific_divisor(d);
        vstd::arithmetic::div_mod::lemma_small_mod(n as nat, d as nat);
        assert(b == 0);
        assert(r == n);
        assert(c * b == 0) by (nonlinear_arith)
            requires
                b == 0,
        ;
    }
    assert forall|i: int| 0 <= i <= c implies 0 <= #[trigger] chunk_start(n, d, i) <= n by {
        assert(0 <= i * b <= c * b) by (nonlinear_arith)
            requires
                0 <= i <= c,
                0 <= b,
        ;
    }
}

/// Distribute `passes` over `drones` in contiguous chunks, one sortie per
/// drone that gets any pass.
/// Every sortie gets an id of its own, `sortie-` followed by UUID text.
#[verifier::rlimit(40)]
pub fn pack<P>(plan_id: PlanId, drones: &[Drone], passes: Vec<P>) -> (r: Vec<RawSortie<P>>)
    ensures
        r@.len() == sortie_count(passes@.len() as int, drones@.len() as int),
        forall|i: int| 0 <= i < r@.len() ==> #[trigger] r@[i].drone_id == drones@[i].id,
        forall|i: int| 0 <= i < r@.len() ==> #[trigger] r@[i].plan_id == plan_id,
        forall|i: int|
            0 <= i < r@.len() ==> #[trigger] r@[i].sortie_index as int == if i <= u32::MAX {
                i
            } else {
                0
            },
        forall|i: int|
            0 <= i < r@.len() ==> #[trigger] r@[i].passes@ == passes@.subrange(
                chunk_start(passes@.len() as int, drones@.len() as int, i),
                chunk_start(passes@.len() as int, drones@.len() as int, i) + chunk_len(
                    passes@.len() as int,
                    drones@.len() as int,
                    i,
                ),
            ),
        forall|i: int|
            0 <= i < r@.len() ==> #[trigger] r@[i].sortie_id@ == sortie_id_text(
                sortie_id_value(r@[i].sortie_id@),
            ),
        forall|a: int, b: int|
            0 <= a < b < r@.len() ==> sortie_id_value(#[trigger] r@[a].sortie_id@)
                < sortie_id_value(#[trigger] r@[b].sortie_id@),
        forall|a: int, b: int|
            0 <= a < b < r@.len() ==> #[trigger] r@[a].sortie_id@ != #[trigger] r@[b].sortie_id@,
        forall|i: int|
            0 <= i < r@.len() ==> is_v7(sortie_id_value(#[trigger] r@[i].sortie_id@)) || (i > 0
                && sortie_id_value(r@[i].sortie_id@) == sortie_id_value(r@[i - 1].sortie_id@)
                + 1),
{
    let mut sorties: Vec<RawSortie<P>> = Vec::new();
    if passes.len() == 0 || drones.len() == 0 {
        return sorties;
    }
    let ghost all = passes@;
    let n = passes.len();
    let d = drones.len();
    let base = n / d;
    let remainder = n % d;
    let count = if base == 0 {
        remainder
    } else {
        d
    };
    proof {
        lemma_chunks_cover(n as int, d as int);
        vstd::arithmetic::div_mod::lemma_fundamental_div_mod(n as int, d as int);
        if base == 0 {
            assert(n < d) by (nonlinear_arith)
                requires
                    n == d * base + remainder,
                    base == 0,
                    remainder < d,
            ;
            vstd::arithmetic::div_mod::lemma_small_mod(n as nat, d as nat);
        } else {
            assert(d <= n) by (nonlinear_arith)
                requires
                    n == d * base + remainder,
                    base >= 1,
                    remainder >= 0,
                    d > 0,
            ;
        }
        assert(count as int == sortie_count(n as int, d as int));
        assert(remainder > 0 ==> base < n) by (nonlinear_arith)
            requires
                n == d * base + remainder,
                base >= 0,
                d > 0,
        ;
    }
    proof {
        assert(chunk_start(n as int, d as int, 0) == 0);
        assert(all.subrange(0, n as int) =~= all);
    }
    let mut rest = passes;
    let mut i: usize = 0;
    let mut last: u128 = 0;
    let ghost mut vals: Seq<u128> = Seq::empty();
    while i < count
        invariant
            n == all.len(),
            d == drones@.len(),
            0 < n,
            0 < d,
            base == n / d,
            remainder == n % d,
            remainder > 0 ==> base < n,
            count as int == sortie_count(n as int, d as int),
            0 <= i <= count,
            chunk_start(n as int, d as int, count as int) == n,
            forall|k: int| 0 <= k < count ==> #[trigger] chunk_len(n as int, d as int, k) >= 1,
            forall|k: int|
                0 <= k <= count ==> 0 <= #[trigger] chunk_start(n as int, d as int, k) <= n,
            rest@ == all.subrange(chunk_start(n as int, d as int, i as int), n as int),
            sorties@.len() == i,
            forall|k: int|
                #![trigger sorties@[k]]
                0 <= k < i ==> {
                    &&& sorties@[k].drone_id == drones@[k].id
                    &&& sorties@[k].plan_id == plan_id
                    &&& sorties@[k].sortie_index as int == if k <= u32::MAX {
                        k
                    } else {
                        0
                    }
                    &&& sorties@[k].passes@ == all.subrange(
                        chunk_start(n as int, d as int, k),
                        chunk_start(n as int, d as int, k) + chunk_len(n as int, d as int, k),
                    )
                    &&& sorties@[k].sortie_id@ == sortie_id_text(vals[k])
                    &&& is_v7(vals[k]) || (k > 0 && vals[k] == vals[k - 1] + 1)
                },
            vals.len() == i,
            forall|a: int, b: int| 0 <= a < b < i ==> #[trigger] vals[a] < #[trigger] vals[b],
            i > 0 ==> last == vals[i - 1],
            i > 0 ==> last as int <= v7_ceiling() + i,
        decreases count - i,
    {
        let take = if i < remainder {
            base + 1
        } else {
            base
        };
        proof {
            lemma_chunk_step(n as int, d as int, i as int);
            assert(take as int == chunk_len(n as int, d as int, i as int));
        }
        let tail = rest.split_off(take);
        let chunk = rest;
        rest = tail;
        // Ids of one process come out of `now_v7` in creation order; should a
        // draw not exceed the previous id, the next value is taken instead,
        // so the ids of a plan always increase.
        let drawn = uuid_now_v7();
        proof {
            lemma_v7_below_ceiling(drawn);
        }
        let v = if i > 0 && drawn <= last {
            last + 1
        } else {
            drawn
        };
        assert(is_v7(v) || (i > 0 && v == last + 1));
        let text = uuid_to_text(v);
        let sortie_id = joined("sortie-", text.as_str());
        let sortie_index: u32 = if i <= 0xffff_ffff {
            i as u32
        } else {
            0
        };
        proof {
            assert(sortie_id@ == "sortie-"@ + uuid_hyphenated(v));
        }
        sorties.push(
            RawSortie {
                sortie_id,
                plan_id,
                drone_id: drones[i].id.clone(),
                sortie_index,
                passes: chunk,
            },
        );
        proof {
            let s0 = chunk_start(n as int, d as int, i as int);
            let s1 = chunk_start(n as int, d as int, i as int + 1);
            assert(all.subrange(s0, n as int).subrange(0, take as int) =~= all.subrange(s0, s1));
            assert(all.subrange(s0, n as int).subrange(take as int, n - s0) =~= all.subrange(
                s1,
                n as int,
            ));
        }
        proof {
            let old_vals = vals;
            vals = vals.push(v);
            assert(vals[i as int] == v);
            assert(forall|k: int| 0 <= k < i ==> vals[k] == old_vals[k]);
            assert forall|k: int| 0 <= k <= i implies (is_v7(#[trigger] vals[k]) || (k > 0
                && vals[k] == vals[k - 1] + 1)) by {
                if k < i {
                    assert(sorties@[k].sortie_id@ == sortie_id_text(old_vals[k]));
                }
            }
        }
        last = v;
        i = i + 1;
    }
    proof {
        assert forall|k: int| 0 <= k < sorties@.len() implies sortie_id_value(
            #[trigger] sorties@[k].sortie_id@,
        ) == vals[k] by {
            lemma_sortie_id_value(vals[k]);
        }
        assert forall|a: int, b: int| 0 <= a < b < sorties@.len() implies #[trigger] sorties@[a].sortie_id@
            != #[trigger] sorties@[b].sortie_id@ by {
            lemma_sortie_id_injective(vals[a], vals[b]);
        }
    }
    sorties
}

/// Packing partitions the passes: the sorties' passes, laid end to end in
/// sortie order, are exactly the input passes; every sortie gets at least one
/// pass, and two sorties' pass counts differ by at most one.
pub proof fn lemma_pack_partitions(n: int, d: int)
    requires
        0 < n,
        0 < d,
    ensures
        chunk_start(n, d, 0) == 0,
        chunk_start(n, d, sortie_count(n, d)) == n,
        forall|i: int|
            0 <= i < sortie_count(n, d) ==> chunk_start(n, d, i + 1) == #[trigger] chunk_start(
                n,
                d,
                i,
            ) + chunk_len(n, d, i),
        forall|i: int| 0 <= i < sortie_count(n, d) ==> #[trigger] chunk_len(n, d, i) >= 1,
        forall|i: int, j: int|
            0 <= i < sortie_count(n, d) && 0 <= j < sortie_count(n, d) ==> #[trigger] chunk_len(
                n,
                d,
                i,
            ) <= #[trigger] chunk_len(n, d, j) + 1,
{
    lemma_chunks_cover(n, d);
    assert(0 * (n / d) == 0);
    assert forall|i: int| 0 <= i < sortie_count(n, d) implies chunk_start(n, d, i + 1)
        == #[trigger] chunk_start(n, d, i) + chunk_len(n, d, i) by {
        lemma_chunk_step(n, d, i);
    }
}

} // verus!
