//! Window sizes as surfaces take them.
use vstd::prelude::*;

verus! {

/// A window's inner size as a surface size: both dimensions, where neither is zero.
pub fn non_zero(width: u32, height: u32) -> (r: Option<(u32, u32)>)
    ensures
        r is Some <==> width > 0 && height > 0,
        r matches Some((w, h)) ==> w == width && h == height,
{
    if width == 0 || height == 0 {
        None
    } else {
        Some((width, height))
    }
}

} // verus!
