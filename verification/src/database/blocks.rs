//! The blocks the wallet has seen: which heights still lack a timestamp, and
//! the latest peak.

use vstd::prelude::*;

use crate::convert::Convert;
use crate::database::coins::length_error;
use crate::error::DatabaseError;

verus! {

/// The heights that are present among `heights`, in order.
pub open spec fn present_heights(heights: Seq<Option<i64>>) -> Seq<int>
    decreases heights.len(),
{
    if heights.len() == 0 {
        Seq::empty()
    } else {
        let rest = present_heights(heights.drop_last());
        match heights.last() {
            Some(h) => rest.push(h as int),
            None => rest,
        }
    }
}

/// Every present height fits 32 unsigned bits.
pub open spec fn heights_fit(heights: Seq<Option<i64>>) -> bool {
    forall|i: int| 0 <= i < heights.len() ==> (#[trigger] heights[i] matches Some(h) ==> 0 <= h <= u32::MAX)
}

/// The heights of blocks still lacking a timestamp, from the listed heights:
/// missing ones are skipped; fails where a present one does not fit 32
/// unsigned bits.
pub fn unsynced_heights(heights: Vec<Option<i64>>) -> (r: Result<Vec<u32>, DatabaseError>)
    ensures
        r is Ok <==> heights_fit(heights@),
        r matches Ok(hs) ==> hs@.map_values(|h: u32| h as int) == present_heights(heights@),
        r matches Err(e) ==> e is PrecisionLost,
{
    let mut out: Vec<u32> = Vec::new();
    let mut i: usize = 0;
    while i < heights.len()
        invariant
            i <= heights@.len(),
            heights_fit(heights@.take(i as int)),
            out@.map_values(|h: u32| h as int) == present_heights(heights@.take(i as int)),
        decreases heights@.len() - i,
    {
        proof {
            assert(heights@.take(i as int + 1).drop_last() =~= heights@.take(i as int));
        }
        match heights[i] {
            Some(h) => {
                let v: u32 = match h.convert() {
                    Ok(v) => v,
                    Err(e) => {
                        proof {
                            assert(!(heights@[i as int] matches Some(h) ==> 0 <= h <= u32::MAX));
                        }
                        return Err(e);
                    },
                };
                out.push(v);
                proof {
                    assert(out@.map_values(|h: u32| h as int) =~= present_heights(heights@.take(i as int)).push(h as int));
                }
            },
            None => {},
        }
        i = i + 1;
        proof {
            assert forall|j: int| 0 <= j < i implies (#[trigger] heights@.take(i as int)[j] matches Some(h) ==> 0 <= h <= u32::MAX) by {
                if j < i - 1 {
                    assert(heights@.take(i as int)[j] == heights@.take(i - 1)[j]);
                }
            }
        }
    }
    proof {
        assert(heights@.take(heights@.len() as int) =~= heights@);
    }
    Ok(out)
}

/// The latest peak from the stored height and header hash of the highest
/// peak block, if any: none where there is no such block or it has no header
/// hash; fails where the height does not fit 32 unsigned bits or the hash has
/// not 32 bytes.
pub open spec fn latest_peak_outcome(
    peak: Option<(i64, Option<Vec<u8>>)>,
    r: Result<Option<(u32, [u8; 32])>, DatabaseError>,
) -> bool {
    match peak {
        None | Some((_, None)) => r == Ok::<Option<(u32, [u8; 32])>, DatabaseError>(None),
        Some((height, Some(hash))) => if !(0 <= height <= u32::MAX) {
            r matches Err(e) && e is PrecisionLost
        } else if hash@.len() != 32 {
            r == Err::<Option<(u32, [u8; 32])>, DatabaseError>(length_error(hash@, 32))
        } else {
            r matches Ok(Some((h, header_hash))) && h == height && header_hash@ == hash@
        },
    }
}

/// Reads the latest peak from the stored row of the highest peak block.
pub fn latest_peak_of(peak: Option<(i64, Option<Vec<u8>>)>) -> (r: Result<Option<(u32, [u8; 32])>, DatabaseError>)
    ensures
        latest_peak_outcome(peak, r),
{
    match peak {
        None => Ok(None),
        Some((_, None)) => Ok(None),
        Some((height, Some(hash))) => {
            let height: u32 = match height.convert() {
                Ok(h) => h,
                Err(e) => return Err(e),
            };
            let header_hash: [u8; 32] = match hash.convert() {
                Ok(h) => h,
                Err(e) => return Err(e),
            };
            Ok(Some((height, header_hash)))
        },
    }
}

} // verus!
