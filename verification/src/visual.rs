//! Index bookkeeping of the spectrum visualizer: which frames the analysis
//! window covers and which FFT bins a bar or a band averages.

use vstd::prelude::*;

verus! {

/// Bars kept at least, whatever count is asked for at construction.
pub const MIN_BAR_SLOTS: usize = 24;

/// Smallest FFT length planned.
pub const MIN_FFT_SIZE: usize = 512;

pub open spec fn min_usize(a: usize, b: usize) -> usize {
    if a < b { a } else { b }
}

pub open spec fn max_usize(a: usize, b: usize) -> usize {
    if a < b { b } else { a }
}

/// The analysis window: the last `min(fft_size, frame_count)` frames.
/// Returns `(start_frame, window_frames)`.
pub fn analysis_window(fft_size: usize, frame_count: usize) -> (r: (usize, usize))
    ensures
        r.1 == min_usize(fft_size, frame_count),
        r.0 + r.1 == frame_count,
{
    let window = if fft_size < frame_count { fft_size } else { frame_count };
    (frame_count - window, window)
}

/// The bins a bar averages, given the bins of its lower and upper edge
/// frequencies and the number of magnitudes: at least bin 1, at least one bin
/// wide, clipped to the spectrum.  Returns `(start, end)`.
pub fn bar_bins(low_bin: usize, high_bin: usize, len: usize) -> (r: (usize, usize))
    requires
        low_bin < usize::MAX,
    ensures
        ({
            let b0 = max_usize(low_bin, 1);
            let b1 = max_usize(high_bin, (b0 + 1) as usize);
            let end = min_usize(b1, len);
            let start = min_usize(b0, if end > 0 { (end - 1) as usize } else { 0 });
            r == (start, end)
        }),
        r.0 <= r.1 <= len,
        len > 0 ==> r.0 < r.1,
{
    let b0 = if low_bin < 1 { 1 } else { low_bin };
    let b1 = if high_bin < b0 + 1 { b0 + 1 } else { high_bin };
    let end = if b1 < len { b1 } else { len };
    let last = if end > 0 { end - 1 } else { 0 };
    let start = if b0 < last { b0 } else { last };
    (start, end)
}

/// The bins a band averages, given the bins of its edge frequencies and the
/// number of magnitudes: clipped to the spectrum and at least one bin wide
/// where the spectrum allows.  Returns `(start, end)`; the band is empty
/// when `start >= end`.
pub fn band_bins(low_bin: usize, high_bin: usize, len: usize) -> (r: (usize, usize))
    requires
        low_bin < usize::MAX || len < usize::MAX,
    ensures
        ({
            let start = min_usize(low_bin, len);
            let end = min_usize(max_usize(high_bin, (start + 1) as usize), len);
            r == (start, end)
        }),
        r.0 <= len,
        r.1 <= len,
        r.0 < len ==> r.0 < r.1,
{
    let start = if low_bin < len { low_bin } else { len };
    let wide = if high_bin < start + 1 { start + 1 } else { high_bin };
    let end = if wide < len { wide } else { len };
    (start, end)
}

} // verus!
