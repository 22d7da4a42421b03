use vstd::prelude::*;

verus! {

/// The fixed side length of a local workgroup; the kernel template declares
/// the same value, so the two must change in lockstep.
pub const WORKGROUP_DIM: u32 = 8;

/// How many workgroups of eight invocations cover `extent` pixels along one
/// axis: the ceiling of `extent / 8`.
pub open spec fn workgroups_along(extent: int) -> int {
    (extent + 7) / 8
}

/// The three-dimensional grid of workgroups that one dispatch launches.
#[derive(Clone, Copy, Debug, PartialEq, Eq, Structural)]
pub struct DispatchGrid {
    pub x: u32,
    pub y: u32,
    pub z: u32,
}

impl DispatchGrid {
    /// The grid an image of the given dimensions requires.
    pub open spec fn wf_for(self, width: int, height: int) -> bool {
        &&& self.x == workgroups_along(width)
        &&& self.y == workgroups_along(height)
        &&& self.z == 1
    }
}

/// Computes the dispatch grid for an image: the ceiling of each dimension
/// divided by the workgroup side, with a single layer in z.
pub fn dispatch_grid(width: u32, height: u32) -> (g: DispatchGrid)
    requires
        width > 0,
        height > 0,
    ensures
        g.wf_for(width as int, height as int),
{
    DispatchGrid { x: (width - 1) / 8 + 1, y: (height - 1) / 8 + 1, z: 1 }
}

/// A grid sized by `workgroups_along` covers every pixel along its axis and
/// wastes less than one full workgroup: the defining property of the ceiling.
pub proof fn lemma_grid_covers(extent: int)
    requires
        extent > 0,
    ensures
        workgroups_along(extent) * 8 >= extent,
        (workgroups_along(extent) - 1) * 8 < extent,
{
    let g: int = workgroups_along(extent);
    assert(g == (extent + 7) / 8);
    assert(g * 8 >= extent && (g - 1) * 8 < extent) by (nonlinear_arith)
        requires extent > 0, g == (extent + 7) / 8;
}

} // verus!
