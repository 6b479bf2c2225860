//! The shape of the level meter: how many bands the indicator shows, how
//! many magnitudes make a window, and how a window is cut into bands.

use vstd::prelude::*;

verus! {

/// The number of bars the indicator shows.
pub const LEVEL_BANDS: usize = 3;

/// The number of magnitudes that make a full window.
pub const LEVEL_WINDOW: usize = 512;

/// Whether a window holding `filled` magnitudes is due for reduction.
pub fn window_full(filled: usize) -> (due: bool)
    ensures
        due == (filled >= LEVEL_WINDOW),
{
    filled >= LEVEL_WINDOW
}

/// Where band `i` of `bands` begins in a window of `len` magnitudes.
pub open spec fn band_start(len: nat, bands: nat, i: nat) -> nat {
    i * (len / bands)
}

/// Where band `i` of `bands` ends in a window of `len` magnitudes: bands are
/// of equal size, and the last one takes the remainder.
pub open spec fn band_end(len: nat, bands: nat, i: nat) -> nat {
    if i + 1 == bands {
        len
    } else {
        (i + 1) * (len / bands)
    }
}

/// `ranges` cuts a window of `len` magnitudes into `bands` bands.
pub open spec fn is_banding(ranges: Seq<(usize, usize)>, len: nat, bands: nat) -> bool {
    &&& ranges.len() == bands
    &&& forall|i: int|
        0 <= i < bands ==> (#[trigger] ranges[i]).0 == band_start(len, bands, i as nat)
            && ranges[i].1 == band_end(len, bands, i as nat)
}

/// The bands of a window of `len` magnitudes, each as the half-open range of
/// positions it covers. A window with fewer magnitudes than bands has no
/// banding, and the level vector is then left as it is.
pub fn band_ranges(len: usize, bands: usize) -> (r: Option<Vec<(usize, usize)>>)
    ensures
        (bands == 0 || len < bands) ==> r is None,
        (0 < bands <= len) ==> r is Some && is_banding(r->Some_0@, len as nat, bands as nat),
{
    if bands == 0 || len < bands {
        return None;
    }
    let size = len / bands;
    assert(size * bands <= len) by (nonlinear_arith)
        requires
            size == len / bands,
            bands > 0,
    ;
    let mut ranges: Vec<(usize, usize)> = Vec::new();
    let mut i: usize = 0;
    while i < bands
        invariant
            0 < bands <= len,
            i <= bands,
            size == len / bands,
            size * bands <= len,
            ranges@.len() == i,
            forall|j: int|
                0 <= j < i ==> (#[trigger] ranges@[j]).0 == band_start(
                    len as nat,
                    bands as nat,
                    j as nat,
                ) && ranges@[j].1 == band_end(len as nat, bands as nat, j as nat),
        decreases bands - i,
    {
        assert((i + 1) * size <= size * bands && i * size <= (i + 1) * size) by (nonlinear_arith)
            requires
                i < bands,
        ;
        let start = i * size;
        let end = if i + 1 == bands {
            len
        } else {
            (i + 1) * size
        };
        ranges.push((start, end));
        i = i + 1;
    }
    Some(ranges)
}

/// The bands of a window lie end to end and cover it: the first begins at
/// the start of the window, each begins where the one before it ended, the
/// last ends where the window ends, and none runs backwards. All but the last
/// hold the same number of magnitudes, and none is empty.
pub proof fn lemma_bands_partition_window(len: nat, bands: nat, i: nat)
    requires
        0 < bands <= len,
        i < bands,
    ensures
        band_start(len, bands, 0) == 0,
        band_end(len, bands, (bands - 1) as nat) == len,
        i + 1 < bands ==> band_end(len, bands, i) == band_start(len, bands, i + 1),
        i + 1 < bands ==> band_end(len, bands, i) - band_start(len, bands, i) == len / bands,
        band_start(len, bands, i) < band_end(len, bands, i) <= len,
        len / bands >= 1,
{
    let size = len / bands;
    assert(size >= 1 && size * bands <= len) by (nonlinear_arith)
        requires
            size == len / bands,
            0 < bands <= len,
    ;
    assert((i + 1) * size == i * size + size && (i + 1) * size <= size * bands) by (nonlinear_arith)
        requires
            i < bands,
    ;
}

} // verus!
