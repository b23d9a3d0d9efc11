//! Surface dimensions: a presentable surface is never configured with a zero
//! width or height.

use vstd::prelude::*;

verus! {

/// The smallest width or height a surface may be configured with.
pub const MIN_DIMENSION: u32 = 1;

/// One dimension raised to the minimum.
pub open spec fn clamp_dimension(d: u32) -> u32 {
    if d < MIN_DIMENSION {
        MIN_DIMENSION
    } else {
        d
    }
}

/// The size a surface is configured with when `width` x `height` is asked for.
pub fn effective_size(width: u32, height: u32) -> (size: (u32, u32))
    ensures
        size.0 == clamp_dimension(width),
        size.1 == clamp_dimension(height),
{
    let w: u32 = if width < MIN_DIMENSION { MIN_DIMENSION } else { width };
    let h: u32 = if height < MIN_DIMENSION { MIN_DIMENSION } else { height };
    (w, h)
}

} // verus!
