//! Dispatch planning: decide whether to submit GPU work this frame and over
//! which workgroup grid.

use vstd::prelude::*;
use crate::binding::FrameBindingSet;
use crate::cache::ProgramCache;
use crate::cache::ProgramHandle;

verus! {

/// Number of workgroups needed to cover `a` items with groups of `b`:
/// the ceiling of `a / b`.
pub open spec fn div_ceil(a: int, b: int) -> int
    recommends
        b > 0,
{
    (a + b - 1) / b
}

/// Width and height of a dispatch's index space, in texels.
#[derive(Clone, Copy, PartialEq, Eq, Structural, Debug)]
pub struct Dims {
    pub width: u32,
    pub height: u32,
}

/// A three-dimensional count of workgroups.
#[derive(Clone, Copy, PartialEq, Eq, Structural, Debug)]
pub struct GridSize {
    pub x: u32,
    pub y: u32,
    pub z: u32,
}

/// The workgroup grid covering `dims` with square tiles of `workgroup`
/// texels a side: one workgroup per started tile, one layer.
pub fn workgroup_grid(dims: Dims, workgroup: u32) -> (g: GridSize)
    requires
        workgroup > 0,
    ensures
        g.x == div_ceil(dims.width as int, workgroup as int),
        g.y == div_ceil(dims.height as int, workgroup as int),
        g.z == 1,
{
    proof {
        lemma_div_ceil_parts(dims.width as int, workgroup as int);
        lemma_div_ceil_parts(dims.height as int, workgroup as int);
    }
    let x: u32 = dims.width / workgroup + if dims.width % workgroup == 0 { 0 } else { 1 };
    let y: u32 = dims.height / workgroup + if dims.height % workgroup == 0 { 0 } else { 1 };
    GridSize { x, y, z: 1 }
}

/// What the executor decided for one frame: either the exact GPU submission
/// the host must record, or nothing at all.
#[derive(Clone, Copy, PartialEq, Eq, Structural, Debug)]
pub enum DispatchOutcome {
    /// No GPU work this frame: no pass is begun, nothing is submitted.
    /// The expected steady state while a compile is pending or failed and
    /// nothing was ready before, or while the image has not resolved.
    Skipped,
    /// Record one compute pass: bind `program` and `bindings` at binding
    /// group `group_index`, dispatch `grid` workgroups, submit to the
    /// device queue.
    Submitted {
        program: ProgramHandle,
        bindings: FrameBindingSet,
        group_index: u32,
        grid: GridSize,
    },
}

/// Decide this frame's dispatch. Work is submitted exactly when a program
/// is installed (its compile was observed ready) and this frame's binding
/// set was built; otherwise the frame is skipped silently, with no
/// submission — in particular on every frame before the first program is
/// ready. A submission binds at group index 0 and covers `dims` with
/// workgroups `workgroup` texels a side.
pub fn plan_dispatch(
    cache: &ProgramCache,
    bindings: Option<FrameBindingSet>,
    dims: Dims,
    workgroup: u32,
) -> (d: DispatchOutcome)
    requires
        workgroup > 0,
    ensures
        d is Skipped <==> (cache.installed is None || bindings is None),
        cache.installed is Some && bindings is Some
            ==> d == (DispatchOutcome::Submitted {
                program: cache.installed->0,
                bindings: bindings->0,
                group_index: 0u32,
                grid: GridSize {
                    x: div_ceil(dims.width as int, workgroup as int) as u32,
                    y: div_ceil(dims.height as int, workgroup as int) as u32,
                    z: 1u32,
                },
            }),
{
    let program = match cache.ready_program() {
        None => {
            return DispatchOutcome::Skipped;
        },
        Some(p) => p,
    };
    let set = match bindings {
        None => {
            return DispatchOutcome::Skipped;
        },
        Some(s) => s,
    };
    let grid = workgroup_grid(dims, workgroup);
    DispatchOutcome::Submitted { program, bindings: set, group_index: 0, grid }
}

/// The ceiling division splits into the flooring quotient plus one exactly
/// when the division has a remainder.
proof fn lemma_div_ceil_parts(a: int, b: int)
    requires
        a >= 0,
        b > 0,
    ensures
        div_ceil(a, b) == a / b + if a % b == 0 { 0int } else { 1int },
        a % b != 0 ==> a / b + 1 <= a,
{
    assert(div_ceil(a, b) == a / b + if a % b == 0 { 0int } else { 1int }
        && (a % b != 0 ==> a / b + 1 <= a))
        by (nonlinear_arith)
        requires
            a >= 0,
            b > 0,
    ;
}

} // verus!
