//! Index bookkeeping of the perfect-reconstruction filter bank.
//!
//! The bank's magnitudes are real-valued and are computed by the caller;
//! they pass through here as opaque payloads. What is decided here is the
//! structure: which adjacent band edges bound each band, and which spectrum
//! bin receives which mask value when the mask is mirrored across the
//! midpoint so that the upper half of the spectrum matches the lower.

use vstd::prelude::*;

verus! {

/// Pairs each band with its two bounding edges: band `i` spans
/// `edges[i] .. edges[i + 1]`.
pub fn band_edge_pairs(edges: &Vec<u64>) -> (pairs: Vec<(u64, u64)>)
    requires
        edges@.len() >= 1,
    ensures
        pairs@.len() == edges@.len() - 1,
        forall|i: int| 0 <= i < pairs@.len() ==> #[trigger] pairs@[i] == (edges@[i], edges@[i + 1]),
{
    let mut pairs: Vec<(u64, u64)> = Vec::new();
    let n = edges.len();
    let mut i: usize = 0;
    while i + 1 < n
        invariant
            n == edges@.len(),
            0 <= i <= edges@.len() - 1,
            pairs@.len() == i,
            forall|k: int| 0 <= k < i ==> #[trigger] pairs@[k] == (edges@[k], edges@[k + 1]),
        decreases edges@.len() - i,
    {
        pairs.push((edges[i], edges[i + 1]));
        i += 1;
    }
    pairs
}

/// Mirrors a spectrum mask across its midpoint: every bin past the midpoint
/// receives the value of its reflection `len - j`, and the lower half,
/// midpoint included, is unchanged.
pub fn mirror_spectrum(mask: &mut Vec<u64>)
    ensures
        final(mask)@.len() == old(mask)@.len(),
        forall|j: int| 0 <= j <= old(mask)@.len() / 2 ==> final(mask)@[j] == old(mask)@[j],
        forall|j: int|
            old(mask)@.len() / 2 < j < old(mask)@.len() ==> final(mask)@[j] == old(mask)@[
                old(mask)@.len() - j
            ],
{
    let len = mask.len();
    let mut j: usize = len / 2 + 1;
    while j < len
        invariant
            len == old(mask)@.len(),
            mask@.len() == len,
            len / 2 + 1 <= j,
            forall|k: int| 0 <= k <= len / 2 ==> mask@[k] == old(mask)@[k],
            forall|k: int| len / 2 < k < j ==> mask@[k] == old(mask)@[len - k],
            forall|k: int| j <= k < len ==> mask@[k] == old(mask)@[k],
        decreases len - j,
    {
        let x = mask[len - j];
        mask.set(j, x);
        j += 1;
    }
}

} // verus!
