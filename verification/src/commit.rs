//! Validation and planning of a manual consumer-group offset commit.
//!
//! A commit target must lie between the partition's low and high
//! watermark.  Validation runs locally, before any network call; only a
//! request it accepts may be handed to the broker gateway.

use vstd::prelude::*;

use crate::types::CommitRequest;
use crate::types::OutOfRange;
use crate::types::PartitionOffsetPoint;

verus! {

/// The offset recorded for `partition` in a watermark listing: the
/// first entry with that partition number, if there is one.
pub open spec fn spec_offset_for(points: Seq<PartitionOffsetPoint>, partition: i32) -> Option<
    i64,
>
    decreases points.len(),
{
    if points.len() == 0 {
        None
    } else if points.first().partition == partition {
        Some(points.first().offset)
    } else {
        spec_offset_for(points.drop_first(), partition)
    }
}

/// Look one partition's offset up in a watermark listing, as fetched
/// from the broker: the first entry for that partition, or `None` when
/// the partition does not appear.
pub fn offset_for_partition(points: &Vec<PartitionOffsetPoint>, partition: i32) -> (r: Option<
    i64,
>)
    ensures
        r == spec_offset_for(points@, partition),
{
    let mut i: usize = 0;
    proof {
        assert(points@.skip(0) =~= points@);
    }
    while i < points.len()
        invariant
            i <= points@.len(),
            spec_offset_for(points@, partition) == spec_offset_for(
                points@.skip(i as int),
                partition,
            ),
        decreases points@.len() - i,
    {
        proof {
            assert(points@.skip(i as int).first() == points@[i as int]);
            assert(points@.skip(i as int).drop_first() =~= points@.skip(i as int + 1));
        }
        let p = points[i];
        if p.partition == partition {
            return Some(p.offset);
        }
        i = i + 1;
    }
    proof {
        assert(points@.skip(i as int).len() == 0);
    }
    None
}

/// A target offset is in range when it lies between the watermarks,
/// both bounds included.
pub open spec fn in_range(target: i64, low: i64, high: i64) -> bool {
    low <= target <= high
}

/// What `validate` returns, as a spec-level function.
pub open spec fn validate_spec(target: i64, low: i64, high: i64) -> Result<(), OutOfRange> {
    if target < low {
        Err(OutOfRange::BelowLow)
    } else if target > high {
        Err(OutOfRange::AboveHigh)
    } else {
        Ok(())
    }
}

/// Check a commit target against the watermarks fetched for its
/// partition.  Rejects exactly the targets outside the watermark range;
/// both boundary values are accepted.  A target below the low watermark
/// is reported as such even when it also exceeds the high one (possible
/// only if the watermarks themselves are crossed).
pub fn validate(target: i64, low: i64, high: i64) -> (r: Result<(), OutOfRange>)
    ensures
        r == validate_spec(target, low, high),
        r is Ok <==> in_range(target, low, high),
        r == Result::<(), OutOfRange>::Err(OutOfRange::BelowLow) <==> target < low,
        r == Result::<(), OutOfRange>::Err(OutOfRange::AboveHigh) <==> (target >= low && target
            > high),
{
    if target < low {
        Err(OutOfRange::BelowLow)
    } else if target > high {
        Err(OutOfRange::AboveHigh)
    } else {
        Ok(())
    }
}

/// Gate a commit request on validation: the request is handed back for
/// the gateway to apply exactly when its target is inside the watermark
/// range, and rejected without any network call otherwise.
pub fn authorize(
    request: CommitRequest,
    low: i64,
    high: i64,
) -> (r: Result<CommitRequest, OutOfRange>)
    ensures
        r is Ok <==> in_range(request.target_offset, low, high),
        r is Ok ==> r->Ok_0 == request,
        r is Err ==> validate_spec(request.target_offset, low, high) == Result::<
            (),
            OutOfRange,
        >::Err(r->Err_0),
{
    match validate(request.target_offset, low, high) {
        Ok(()) => Ok(request),
        Err(reason) => Err(reason),
    }
}

/// Validation rejects a target iff it lies below the low or above the
/// high watermark, and accepts both boundary values.
pub proof fn lemma_validate_rejects_iff_out_of_range(target: i64, low: i64, high: i64)
    ensures
        validate_spec(target, low, high) is Err <==> (target < low || target > high),
        validate_spec(low, low, high) is Ok <==> low <= high,
        validate_spec(high, low, high) is Ok <==> low <= high,
{
}

} // verus!
