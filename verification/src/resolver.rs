//! Pure offset resolution: turns a start policy plus per-partition
//! watermarks into a concrete starting offset per partition.

use vstd::prelude::*;

use crate::types::PartitionOffsetPoint;
use crate::types::StartPolicy;
use crate::types::WatermarkKind;

verus! {

/// How far each partition is wound back for `LatestMinusN(n)`: the
/// requested lookback divided evenly across the partitions.  With no
/// partitions the whole lookback is kept, so the formula stays total.
pub open spec fn per_partition_back(n: u64, partition_count: nat) -> int {
    if partition_count > 0 {
        n as int / partition_count as int
    } else {
        n as int
    }
}

/// A watermark wound back by `back`, clamped at zero.
pub open spec fn wound_back(high: int, back: int) -> int {
    if high - back < 0 {
        0
    } else {
        high - back
    }
}

/// The starting offsets `Earliest` resolves to: exactly the low
/// watermarks, unchanged.
pub open spec fn earliest_targets(lows: Seq<PartitionOffsetPoint>) -> Seq<PartitionOffsetPoint> {
    lows
}

/// The starting offsets `LatestMinusN(n)` resolves to.
pub open spec fn latest_minus_n_targets(
    n: u64,
    highs: Seq<PartitionOffsetPoint>,
) -> Seq<PartitionOffsetPoint> {
    highs.map_values(
        |p: PartitionOffsetPoint|
            PartitionOffsetPoint {
                partition: p.partition,
                offset: wound_back(p.offset as int, per_partition_back(n, highs.len())) as i64,
            },
    )
}

/// Which watermark kind a policy needs from the broker.
pub open spec fn spec_watermark_kind(policy: StartPolicy) -> WatermarkKind {
    match policy {
        StartPolicy::Earliest => WatermarkKind::Earliest,
        StartPolicy::LatestMinusN(_) => WatermarkKind::Latest,
    }
}

/// The targets a policy resolves to, given the watermarks of the kind
/// `spec_watermark_kind` names.
pub open spec fn resolved_targets(
    policy: StartPolicy,
    watermarks: Seq<PartitionOffsetPoint>,
) -> Seq<PartitionOffsetPoint> {
    match policy {
        StartPolicy::Earliest => earliest_targets(watermarks),
        StartPolicy::LatestMinusN(n) => latest_minus_n_targets(n, watermarks),
    }
}

/// Which watermark kind must be fetched before resolving `policy`.
pub fn watermark_kind(policy: StartPolicy) -> (r: WatermarkKind)
    ensures
        r == spec_watermark_kind(policy),
{
    match policy {
        StartPolicy::Earliest => WatermarkKind::Earliest,
        StartPolicy::LatestMinusN(_) => WatermarkKind::Latest,
    }
}

/// Resolve `Earliest`: every partition starts at its low watermark.
pub fn resolve_earliest(lows: &Vec<PartitionOffsetPoint>) -> (r: Vec<PartitionOffsetPoint>)
    ensures
        r@ == earliest_targets(lows@),
{
    let mut out: Vec<PartitionOffsetPoint> = Vec::new();
    let mut i: usize = 0;
    while i < lows.len()
        invariant
            i <= lows.len(),
            out@ == lows@.subrange(0, i as int),
        decreases lows.len() - i,
    {
        out.push(lows[i]);
        i = i + 1;
        proof {
            assert(out@ =~= lows@.subrange(0, i as int));
        }
    }
    proof {
        assert(out@ =~= lows@);
    }
    out
}

/// Resolve `LatestMinusN(n)`: wind every partition's high watermark back
/// by `n / partition_count` (by the whole of `n` when there are no
/// partitions), clamping at zero.  The lookback is split evenly rather
/// than weighted by per-partition backlog, a deliberate simplification:
/// with imbalanced partitions the pull is not exactly the last `n`
/// records of the topic.
pub fn resolve_latest_minus_n(n: u64, highs: &Vec<PartitionOffsetPoint>) -> (r: Vec<
    PartitionOffsetPoint,
>)
    requires
        forall|i: int| 0 <= i < highs@.len() ==> highs@[i].offset >= 0,
    ensures
        r@ == latest_minus_n_targets(n, highs@),
{
    let back: u64 = if highs.len() > 0 {
        n / (highs.len() as u64)
    } else {
        n
    };
    proof {
        assert(back as int == per_partition_back(n, highs@.len()));
    }
    let mut out: Vec<PartitionOffsetPoint> = Vec::new();
    let mut i: usize = 0;
    while i < highs.len()
        invariant
            i <= highs.len(),
            back as int == per_partition_back(n, highs@.len()),
            forall|j: int| 0 <= j < highs@.len() ==> highs@[j].offset >= 0,
            out@ == latest_minus_n_targets(n, highs@).subrange(0, i as int),
        decreases highs.len() - i,
    {
        let p = highs[i];
        let offset: i64 = if back >= (p.offset as u64) {
            0
        } else {
            p.offset - (back as i64)
        };
        proof {
            assert(offset as int == wound_back(p.offset as int, back as int));
        }
        out.push(PartitionOffsetPoint { partition: p.partition, offset });
        i = i + 1;
        proof {
            assert(out@ =~= latest_minus_n_targets(n, highs@).subrange(0, i as int));
        }
    }
    proof {
        assert(out@ =~= latest_minus_n_targets(n, highs@));
    }
    out
}

/// Resolve a start policy against the watermarks fetched for it.  For
/// `LatestMinusN` the watermarks must be the high ones, which the broker
/// reports as non-negative offsets.
pub fn resolve(policy: StartPolicy, watermarks: &Vec<PartitionOffsetPoint>) -> (r: Vec<
    PartitionOffsetPoint,
>)
    requires
        forall|i: int| 0 <= i < watermarks@.len() ==> watermarks@[i].offset >= 0,
    ensures
        r@ == resolved_targets(policy, watermarks@),
{
    match policy {
        StartPolicy::Earliest => resolve_earliest(watermarks),
        StartPolicy::LatestMinusN(n) => resolve_latest_minus_n(n, watermarks),
    }
}

/// With at least one partition and non-negative high watermarks,
/// `LatestMinusN(n)` yields, for every partition, an offset between zero
/// and that partition's high watermark.
pub proof fn lemma_latest_minus_n_bounded(n: u64, highs: Seq<PartitionOffsetPoint>)
    requires
        highs.len() > 0,
        forall|i: int| 0 <= i < highs.len() ==> highs[i].offset >= 0,
    ensures
        forall|i: int|
            #![trigger latest_minus_n_targets(n, highs)[i]]
            0 <= i < highs.len() ==> {
                let t = latest_minus_n_targets(n, highs)[i];
                0 <= t.offset <= highs[i].offset && t.partition == highs[i].partition
            },
{
    assert forall|i: int| 0 <= i < highs.len() implies {
        let t = #[trigger] latest_minus_n_targets(n, highs)[i];
        0 <= t.offset <= highs[i].offset && t.partition == highs[i].partition
    } by {
        assert(per_partition_back(n, highs.len()) >= 0);
    }
}

/// `Earliest` yields, for every partition, exactly the low watermark,
/// and resolving its own output again yields the same offsets: the
/// resolution is idempotent for a fixed watermark snapshot.
pub proof fn lemma_earliest_exact_and_idempotent(lows: Seq<PartitionOffsetPoint>)
    ensures
        forall|i: int|
            0 <= i < lows.len() ==> earliest_targets(lows)[i] == lows[i],
        earliest_targets(earliest_targets(lows)) == earliest_targets(lows),
{
}

} // verus!
