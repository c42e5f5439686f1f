//! The surface configuration.

use vstd::prelude::*;

verus! {

/// The size in pixels at which the surface is configured.
#[derive(Clone, Copy, Debug, PartialEq, Eq, Structural)]
pub struct SurfaceConfig {
    /// Width in pixels.
    pub width: u32,
    /// Height in pixels.
    pub height: u32,
}

impl SurfaceConfig {
    /// A surface can be configured at this size: neither dimension is zero.
    pub open spec fn is_valid(self) -> bool {
        self.width > 0 && self.height > 0
    }

    /// Tests whether a surface can be configured at this size.
    pub fn check_valid(&self) -> (valid: bool)
        ensures
            valid == self.is_valid(),
    {
        self.width > 0 && self.height > 0
    }
}

/// `choice` is the format to present in, among the formats that a surface
/// reports in its order of preference, `srgb` telling of each whether it is
/// an sRGB format: the first sRGB format, or the very first format where
/// none is sRGB.
pub open spec fn is_preferred_format(srgb: Seq<bool>, choice: int) -> bool {
    &&& 0 <= choice < srgb.len()
    &&& {
        ||| srgb[choice] && forall|j: int| 0 <= j < choice ==> !srgb[j]
        ||| choice == 0 && forall|j: int| 0 <= j < srgb.len() ==> !srgb[j]
    }
}

/// Picks the format to present in from the formats that a surface reports.
/// There is a choice unless the surface reports no format at all.
pub fn preferred_format(srgb: &[bool]) -> (choice: Option<usize>)
    ensures
        srgb@.len() == 0 <==> choice is None,
        choice matches Some(index) ==> is_preferred_format(srgb@, index as int),
{
    if srgb.len() == 0 {
        return None;
    }
    let mut i: usize = 0;
    while i < srgb.len()
        invariant
            i <= srgb.len(),
            forall|j: int| 0 <= j < i ==> !srgb@[j],
        decreases srgb.len() - i,
    {
        if srgb[i] {
            return Some(i);
        }
        i += 1;
    }
    Some(0)
}

} // verus!
