use vstd::prelude::*;

verus! {

/// Longest frame side from which the network is asked to work at reduced size.
pub const DOWNSAMPLE_THRESHOLD: u32 = 512;

/// Safety margin over the threshold, in hundredths: the hint targets
/// `512 / 1.06` pixels on the longest side rather than exactly 512.
pub const MARGIN_HUNDREDTHS: u64 = 106;

/// The downsample hint as an exact fraction `numerator / denominator`.
#[derive(Debug, Clone, Copy, PartialEq, Eq, Structural)]
pub struct DownsampleRatio {
    pub numerator: u64,
    pub denominator: u64,
}

pub open spec fn longest_side(height: u32, width: u32) -> u32 {
    if height >= width {
        height
    } else {
        width
    }
}

/// `1` below the threshold, else `512 / (longest side * 1.06)`,
/// written as the fraction `51200 / (longest side * 106)`.
pub open spec fn ratio_spec(height: u32, width: u32) -> (int, int) {
    let m = longest_side(height, width);
    if m >= DOWNSAMPLE_THRESHOLD {
        (DOWNSAMPLE_THRESHOLD * 100, m * MARGIN_HUNDREDTHS)
    } else {
        (1, 1)
    }
}

impl DownsampleRatio {
    pub open spec fn spec_value(self) -> (int, int) {
        (self.numerator as int, self.denominator as int)
    }
}

/// Internal-resolution hint handed to the inference engine for a frame of
/// the given size.
pub fn auto_downsample_ratio(height: u32, width: u32) -> (r: DownsampleRatio)
    ensures
        r.spec_value() == ratio_spec(height, width),
        0 < r.numerator <= r.denominator,
{
    let higher_res: u32 = if height >= width {
        height
    } else {
        width
    };
    if higher_res >= DOWNSAMPLE_THRESHOLD {
        let d: u64 = higher_res as u64 * MARGIN_HUNDREDTHS;
        DownsampleRatio { numerator: DOWNSAMPLE_THRESHOLD as u64 * 100, denominator: d }
    } else {
        DownsampleRatio { numerator: 1, denominator: 1 }
    }
}

} // verus!
