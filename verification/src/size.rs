//! Viewport and render-target size computation.
//!
//! The native viewport resolution is downsampled by a configurable scale
//! factor (carried in thousandths), padded up to even dimensions, and
//! clamped away from zero. The cascade probe buffer expands the scaled
//! width to pack direction bins side by side.

use vstd::prelude::*;

verus! {

use vstd::arithmetic::div_mod::lemma_div_is_ordered_by_denominator;

/// Width and height of a viewport or texture, in texels.
#[derive(Clone, Copy, PartialEq, Eq, Structural, Debug)]
pub struct Extent {
    pub width: u32,
    pub height: u32,
}

/// Largest viewport axis the size computations accept. Keeps every
/// derived dimension, including the fourfold cascade expansion, inside
/// `u32` with room to spare.
pub const MAX_NATIVE_DIM: u32 = 0x0400_0000;

/// Scale factors are carried in thousandths; 1000 means no downscaling.
pub const SCALE_ONE_MILLI: u32 = 1000;

/// Smallest accepted scale factor (exclusive bound): one quarter.
pub const MIN_SCALE_MILLI: u32 = 250;

/// Largest accepted scale factor: ten.
pub const MAX_SCALE_MILLI: u32 = 10000;

/// Direction bins packed side by side along the x axis of the cascade
/// probe buffer.
pub const PROBE_EXPANSION: u32 = 4;

/// Every scaled axis stays below this bound when the native axis is at
/// most [`MAX_NATIVE_DIM`] and the scale factor is accepted.
pub const MAX_SCALED_DIM: u32 = 0x1000_0000;

pub open spec fn valid_scale(scale_milli: u32) -> bool {
    MIN_SCALE_MILLI < scale_milli <= MAX_SCALE_MILLI
}

/// `floor(native / scale)` for a scale factor carried in thousandths.
pub open spec fn floor_scaled(native: int, scale_milli: int) -> int {
    (native * 1000) / scale_milli
}

/// Rounds a non-negative number up to the next even number.
pub open spec fn even_up(w: int) -> int {
    w + (w % 2)
}

/// One axis of the downsampled resolution: `floor(native / scale)`,
/// rounded up to even, and clamped so that even a tiny viewport still
/// yields a usable non-zero texture axis.
pub open spec fn scaled_axis(native: int, scale_milli: int) -> int {
    let w = even_up(floor_scaled(native, scale_milli));
    if w < 2 {
        2
    } else {
        w
    }
}

/// Resolutions derived from the native viewport for one frame: the
/// viewport itself, the downsampled working resolution, and the cascade
/// probe-buffer resolution.
#[derive(Clone, Copy, PartialEq, Eq, Structural, Debug)]
pub struct ComputedSize {
    pub native: Extent,
    pub scaled: Extent,
    pub cascade_size: Extent,
}

impl ComputedSize {
    /// Both scaled axes are even, non-zero, and small enough that every
    /// later per-target computation stays inside `u32`; the cascade
    /// buffer is the scaled resolution expanded along x.
    pub open spec fn wf(self) -> bool {
        &&& self.scaled.width % 2 == 0
        &&& self.scaled.height % 2 == 0
        &&& 2 <= self.scaled.width <= MAX_SCALED_DIM
        &&& 2 <= self.scaled.height <= MAX_SCALED_DIM
        &&& self.cascade_size.width == PROBE_EXPANSION * self.scaled.width
        &&& self.cascade_size.height == self.scaled.height
    }
}

/// The unique well-formed size set for a given viewport and scale.
pub open spec fn computed_size_spec(native: Extent, scale_milli: u32) -> ComputedSize {
    let w = scaled_axis(native.width as int, scale_milli as int);
    let h = scaled_axis(native.height as int, scale_milli as int);
    ComputedSize {
        native,
        scaled: Extent { width: w as u32, height: h as u32 },
        cascade_size: Extent { width: (PROBE_EXPANSION * w) as u32, height: h as u32 },
    }
}

/// The scaled axis is even, at least 2, and bounded whenever its inputs
/// are in range.
pub proof fn lemma_scaled_axis_bounds(native: int, scale_milli: int)
    requires
        0 <= native <= MAX_NATIVE_DIM,
        MIN_SCALE_MILLI < scale_milli <= MAX_SCALE_MILLI,
    ensures
        scaled_axis(native, scale_milli) % 2 == 0,
        2 <= scaled_axis(native, scale_milli) < MAX_SCALED_DIM,
{
    lemma_div_is_ordered_by_denominator(native * 1000, 251, scale_milli);
    assert(native * 1000 <= 0x0400_0000 * 1000) by (nonlinear_arith)
        requires
            native <= 0x0400_0000,
    ;
    lemma_div_is_ordered_by_denominator(0x0400_0000int * 1000, 251, scale_milli);
    assert((0x0400_0000int * 1000) / 251 < 0x1000_0000 - 2);
    assert(floor_scaled(native, scale_milli) <= (0x0400_0000int * 1000) / 251) by {
        vstd::arithmetic::div_mod::lemma_div_is_ordered(
            native * 1000,
            0x0400_0000int * 1000,
            scale_milli,
        );
    }
    assert(floor_scaled(native, scale_milli) >= 0) by {
        vstd::arithmetic::div_mod::lemma_div_pos_is_pos(native * 1000, scale_milli);
    }
}

/// Computes one scaled axis: `floor(native / scale)` padded to even and
/// clamped to a minimum of 2.
fn scaled_axis_exec(native: u32, scale_milli: u32) -> (r: u32)
    requires
        native <= MAX_NATIVE_DIM,
        valid_scale(scale_milli),
    ensures
        r == scaled_axis(native as int, scale_milli as int),
{
    proof {
        lemma_scaled_axis_bounds(native as int, scale_milli as int);
    }
    let t: u64 = (native as u64) * 1000 / (scale_milli as u64);
    assert(t == floor_scaled(native as int, scale_milli as int));
    let padded: u64 = t + t % 2;
    if padded < 2 {
        2
    } else {
        padded as u32
    }
}

impl ComputedSize {
    /// Derives all per-frame resolutions from the physical viewport
    /// size and the configured scale factor.
    pub fn from_window(native: Extent, scale_milli: u32) -> (r: ComputedSize)
        requires
            native.width <= MAX_NATIVE_DIM,
            native.height <= MAX_NATIVE_DIM,
            valid_scale(scale_milli),
        ensures
            r == computed_size_spec(native, scale_milli),
            r.wf(),
    {
        proof {
            lemma_scaled_axis_bounds(native.width as int, scale_milli as int);
            lemma_scaled_axis_bounds(native.height as int, scale_milli as int);
        }
        let w = scaled_axis_exec(native.width, scale_milli);
        let h = scaled_axis_exec(native.height, scale_milli);
        ComputedSize {
            native,
            scaled: Extent { width: w, height: h },
            cascade_size: Extent { width: PROBE_EXPANSION * w, height: h },
        }
    }
}

} // verus!
