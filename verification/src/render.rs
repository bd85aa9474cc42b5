//! Filling a row-major grayscale raster from per-pixel escape outcomes.
//!
//! An escape outcome is `Some(i)` when the pixel's complex point left the
//! escape radius at iteration `i`, and `None` when it stayed bounded for the
//! whole iteration budget. The caller classifies each pixel (a floating-point
//! iteration that this library does not perform) and hands the outcomes over
//! in row-major order; `render` writes one intensity byte per pixel.

use vstd::prelude::*;

verus! {

/// The per-pixel iteration budget of the renderer: escape indices it accepts
/// lie strictly below this, so every escaped pixel gets a positive intensity.
pub const ITERATION_LIMIT: u32 = 255;

/// An image size is usable only when both dimensions are positive: the
/// coordinate mapper divides by each dimension, so a zero-sized image is a
/// configuration error to report, not a degenerate render to attempt.
pub open spec fn bounds_positive(bounds: (usize, usize)) -> bool {
    bounds.0 > 0 && bounds.1 > 0
}

/// Decides whether an image size may be rendered at all.
pub fn check_bounds(bounds: (usize, usize)) -> (ok: bool)
    ensures
        ok == bounds_positive(bounds),
{
    bounds.0 > 0 && bounds.1 > 0
}

/// The grayscale intensity of one pixel: a bounded point is drawn black, and
/// a point that escaped at iteration `i` is drawn at `255 - i`, so the
/// earlier the escape, the brighter the pixel.
pub open spec fn intensity_spec(outcome: Option<u32>) -> u8 {
    match outcome {
        None => 0u8,
        Some(i) => (255 - i as int) as u8,
    }
}

/// An outcome is within the renderer's iteration budget.
pub open spec fn outcome_in_budget(outcome: Option<u32>) -> bool {
    outcome matches Some(i) ==> i < ITERATION_LIMIT
}

/// Turns one escape outcome into its grayscale intensity byte.
pub fn escape_to_intensity(outcome: Option<u32>) -> (b: u8)
    requires
        outcome_in_budget(outcome),
    ensures
        b == intensity_spec(outcome),
{
    match outcome {
        None => 0,
        Some(count) => 255 - (count as u8),
    }
}

/// A bounded pixel is exactly black; among escaped pixels the intensity
/// falls strictly as the escape index rises, and never reaches black.
pub proof fn lemma_intensity_monotonic(i1: u32, i2: u32)
    requires
        i1 < i2 < ITERATION_LIMIT,
    ensures
        intensity_spec(Some(i1)) > intensity_spec(Some(i2)),
        intensity_spec(Some(i1)) > 0,
        intensity_spec(Some(i2)) > 0,
        intensity_spec(None) == 0,
{
}

/// A row-major offset lies within the raster.
pub proof fn lemma_offset_in_range(width: int, height: int, row: int, column: int)
    requires
        0 <= row < height,
        0 <= column < width,
    ensures
        0 <= row * width + column < width * height,
{
    assert(row * width + column < width * height) by (nonlinear_arith)
        requires
            0 <= row < height,
            0 <= column < width,
    ;
    assert(0 <= row * width) by (nonlinear_arith)
        requires
            0 <= row,
            0 <= column < width,
    ;
}

/// Writes the intensity of every pixel into `buffer`, row-major: the byte at
/// `row * width + column` becomes the intensity of the outcome at that same
/// offset. The buffer must already have exactly `width * height` bytes.
pub fn render(buffer: &mut Vec<u8>, bounds: (usize, usize), outcomes: &Vec<Option<u32>>)
    requires
        old(buffer)@.len() == bounds.0 * bounds.1,
        outcomes@.len() == bounds.0 * bounds.1,
        forall|k: int| 0 <= k < outcomes@.len() ==> outcome_in_budget(#[trigger] outcomes@[k]),
    ensures
        final(buffer)@.len() == bounds.0 * bounds.1,
        forall|k: int| 0 <= k < final(buffer)@.len()
            ==> #[trigger] final(buffer)@[k] == intensity_spec(outcomes@[k]),
{
    let width = bounds.0;
    let height = bounds.1;
    let total = buffer.len();
    let mut row: usize = 0;
    while row < height
        invariant
            total == width * height,
            buffer@.len() == total,
            outcomes@.len() == total,
            forall|k: int| 0 <= k < total ==> outcome_in_budget(#[trigger] outcomes@[k]),
            row <= height,
            forall|k: int| 0 <= k < row * width
                ==> #[trigger] buffer@[k] == intensity_spec(outcomes@[k]),
        decreases height - row,
    {
        let mut column: usize = 0;
        while column < width
            invariant
                total == width * height,
                buffer@.len() == total,
                outcomes@.len() == total,
                forall|k: int| 0 <= k < total ==> outcome_in_budget(#[trigger] outcomes@[k]),
                row < height,
                column <= width,
                forall|k: int| 0 <= k < row * width + column
                    ==> #[trigger] buffer@[k] == intensity_spec(outcomes@[k]),
            decreases width - column,
        {
            proof {
                lemma_offset_in_range(width as int, height as int, row as int, column as int);
            }
            let offset = row * width + column;
            let b = escape_to_intensity(outcomes[offset]);
            buffer.set(offset, b);
            column = column + 1;
        }
        proof {
            assert((row + 1) * width == row * width + width) by (nonlinear_arith);
        }
        row = row + 1;
    }
    proof {
        assert(height * width == width * height) by (nonlinear_arith);
    }
}

/// The rendered buffer is a function of the outcomes alone: any two buffers
/// that satisfy `render`'s contract for the same outcomes are equal, so a
/// render pass is reproducible bit for bit.
pub proof fn lemma_render_deterministic(b1: Seq<u8>, b2: Seq<u8>, outcomes: Seq<Option<u32>>)
    requires
        b1.len() == outcomes.len(),
        b2.len() == outcomes.len(),
        forall|k: int| 0 <= k < b1.len() ==> #[trigger] b1[k] == intensity_spec(outcomes[k]),
        forall|k: int| 0 <= k < b2.len() ==> #[trigger] b2[k] == intensity_spec(outcomes[k]),
    ensures
        b1 == b2,
{
    assert(b1 =~= b2);
}

} // verus!
