//! Debug-visualization flags.
//!
//! A flag set is a plain 32-bit mask consumed directly by the composite
//! shader. When several visualization flags are raised at once, the
//! composite stage shows exactly one intermediate buffer; the precedence
//! here is first-in-declaration-order wins: SDF, then voronoi, then the
//! first merge buffer, then the second.

use vstd::prelude::*;

verus! {

pub const GI_FLAG_DEFAULT: u32 = 0;
pub const GI_FLAG_DEBUG_SDF: u32 = 0x1;
pub const GI_FLAG_DEBUG_VORONOI: u32 = 0x2;
pub const GI_FLAG_DEBUG_LIGHT: u32 = 0x4;
pub const GI_FLAG_DEBUG_MERGE0: u32 = 0x8;
pub const GI_FLAG_DEBUG_MERGE1: u32 = 0x10;
pub const GI_FLAG_APPLY_NORMALS: u32 = 0x20;

/// A set of debug-visualization flags, stored as the mask the GPU
/// configuration record carries.
#[derive(Clone, Copy, PartialEq, Eq, Structural, Debug)]
pub struct GiFlags {
    pub bits: u32,
}

impl GiFlags {
    pub open spec fn spec_contains(self, flag: u32) -> bool {
        self.bits & flag == flag
    }

    /// The empty flag set.
    pub fn empty() -> (r: GiFlags)
        ensures
            r.bits == GI_FLAG_DEFAULT,
    {
        GiFlags { bits: GI_FLAG_DEFAULT }
    }

    pub fn from_bits(bits: u32) -> (r: GiFlags)
        ensures
            r.bits == bits,
    {
        GiFlags { bits }
    }

    pub fn bits(&self) -> (r: u32)
        ensures
            r == self.bits,
    {
        self.bits
    }

    /// True when every bit of `flag` is raised in this set.
    pub fn contains(&self, flag: u32) -> (r: bool)
        ensures
            r == self.spec_contains(flag),
    {
        self.bits & flag == flag
    }

    /// Raises every bit of `flag`.
    pub fn insert(&mut self, flag: u32)
        ensures
            final (self).bits == old(self).bits | flag,
    {
        self.bits = self.bits | flag;
    }

    /// Clears every bit of `flag`.
    pub fn remove(&mut self, flag: u32)
        ensures
            final (self).bits == old(self).bits & !flag,
    {
        self.bits = self.bits & !flag;
    }

    pub fn union(self, other: GiFlags) -> (r: GiFlags)
        ensures
            r.bits == self.bits | other.bits,
    {
        GiFlags { bits: self.bits | other.bits }
    }
}

/// Debug flags attached to a camera.
#[derive(Clone, Copy, PartialEq, Eq, Structural, Debug)]
pub struct RadianceDebug(pub GiFlags);

/// What the composite pass shows: the normally lit scene, or one
/// intermediate buffer selected by a debug flag.
#[derive(Clone, Copy, PartialEq, Eq, Structural, Debug)]
pub enum DebugView {
    Composite,
    Sdf,
    Voronoi,
    Merge0,
    Merge1,
}

/// The buffer the composite pass shows for a flag set; the first raised
/// visualization flag, in declaration order, wins.
pub open spec fn debug_view_spec(flags: GiFlags) -> DebugView {
    if flags.spec_contains(GI_FLAG_DEBUG_SDF) {
        DebugView::Sdf
    } else if flags.spec_contains(GI_FLAG_DEBUG_VORONOI) {
        DebugView::Voronoi
    } else if flags.spec_contains(GI_FLAG_DEBUG_MERGE0) {
        DebugView::Merge0
    } else if flags.spec_contains(GI_FLAG_DEBUG_MERGE1) {
        DebugView::Merge1
    } else {
        DebugView::Composite
    }
}

/// Selects which buffer the composite pass shows.
pub fn debug_view(flags: GiFlags) -> (r: DebugView)
    ensures
        r == debug_view_spec(flags),
{
    if flags.contains(GI_FLAG_DEBUG_SDF) {
        DebugView::Sdf
    } else if flags.contains(GI_FLAG_DEBUG_VORONOI) {
        DebugView::Voronoi
    } else if flags.contains(GI_FLAG_DEBUG_MERGE0) {
        DebugView::Merge0
    } else if flags.contains(GI_FLAG_DEBUG_MERGE1) {
        DebugView::Merge1
    } else {
        DebugView::Composite
    }
}

} // verus!
