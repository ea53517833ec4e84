//! One frame of the orchestration, in the order the host's loop runs it:
//! drain the reload bridge, advance the program cache, build this frame's
//! binding set, and plan the dispatch. The host performs the actions the
//! step hands back — feeding a drained identifier to its compiler, and
//! recording and submitting a planned dispatch — and supplies next frame's
//! observations (the compiler's poll report and the resolved image object).

use vstd::prelude::*;
use crate::binding::BindingBuilder;
use crate::binding::BindingLayout;
use crate::binding::BuildResult;
use crate::binding::FrameBindingSet;
use crate::binding::expected_slots;
use crate::bridge::ReloadBridge;
use crate::cache::ProgramCache;
use crate::cache::ProgramHandle;
use crate::cache::ProgramStatus;
use crate::cache::observe_installed;
use crate::dispatch::Dims;
use crate::dispatch::DispatchOutcome;
use crate::dispatch::GridSize;
use crate::dispatch::div_ceil;
use crate::dispatch::plan_dispatch;

verus! {

/// What one frame decided: the identifier the host must recompile (if a
/// reload was pending), how binding construction went, and the dispatch to
/// record — or nothing.
pub struct FrameActions {
    /// The drained reload request, handed on to the host's asset system.
    pub reload: Option<String>,
    /// This frame's binding construction outcome.
    pub binding: BuildResult,
    /// This frame's dispatch decision.
    pub dispatch: DispatchOutcome,
}

/// Run one frame. In order: (a) drain the reload bridge, and on a request
/// start a fresh compile of the drained identifier, superseding the current
/// one; otherwise record the compiler's poll report for the current
/// request, if there is one; (b) build a brand-new binding set from the
/// freshly resolved image object; (c) plan the dispatch from the cache and
/// the new set. No step blocks: a pending compile or an unresolved image
/// only makes this frame skip its compute work.
pub fn frame_step(
    bridge: &mut ReloadBridge,
    cache: &mut ProgramCache,
    builder: &mut BindingBuilder,
    layout: &BindingLayout,
    poll: ProgramStatus,
    resolved_image: Option<u64>,
    uniform_object: u64,
    dims: Dims,
    workgroup: u32,
) -> (a: FrameActions)
    requires
        old(cache).wf(),
        old(cache).next_id < u64::MAX,
        old(builder).next_token < u64::MAX,
        workgroup > 0,
    ensures
        final(cache).wf(),
        // (a) the bridge is drained, exactly once, into the reload action.
        a.reload == old(bridge).pending,
        final(bridge).pending is None,
        // On a reload, a fresh compile request supersedes the current one;
        // the installed program is untouched.
        old(bridge).pending is Some ==> {
            &&& final(cache).current == Some(ProgramHandle { id: old(cache).next_id })
            &&& final(cache).status is Pending
            &&& final(cache).installed == old(cache).installed
            &&& final(cache).next_id == old(cache).next_id + 1
            &&& (final(cache).source matches Some(s) && s@ == old(bridge).pending->0@)
        },
        // With no reload, the poll report advances the cache; only a
        // `Ready` report moves the installed program.
        old(bridge).pending is None && old(cache).current is Some ==> {
            &&& final(cache).status == poll
            &&& final(cache).installed == observe_installed(
                old(cache).installed,
                old(cache).current,
                poll,
            )
            &&& final(cache).current == old(cache).current
            &&& final(cache).next_id == old(cache).next_id
        },
        // Before any compile was ever requested there is nothing to poll.
        old(bridge).pending is None && old(cache).current is None
            ==> *final(cache) == *old(cache),
        // (b) binding construction: fails on a layout mismatch, waits on an
        // unresolved image, and otherwise stamps a brand-new set.
        !(layout.slots@ =~= expected_slots()) ==> a.binding is LayoutMismatch
            && *final(builder) == *old(builder),
        layout.slots@ =~= expected_slots() && resolved_image is None ==> a.binding is NotReady
            && *final(builder) == *old(builder),
        layout.slots@ =~= expected_slots() && resolved_image is Some ==> a.binding
            == BuildResult::Built(FrameBindingSet {
                token: old(builder).next_token,
                image_object: resolved_image->0,
                uniform_object: uniform_object,
            }) && final(builder).next_token == old(builder).next_token + 1,
        // (c) dispatch happens exactly when a program is installed and this
        // frame's set was built; otherwise the frame is a silent no-op.
        a.dispatch is Skipped <==> (final(cache).installed is None || !(a.binding is Built)),
        final(cache).installed is Some && a.binding is Built ==> a.dispatch
            == (DispatchOutcome::Submitted {
                program: final(cache).installed->0,
                bindings: a.binding->0,
                group_index: 0u32,
                grid: GridSize {
                    x: div_ceil(dims.width as int, workgroup as int) as u32,
                    y: div_ceil(dims.height as int, workgroup as int) as u32,
                    z: 1u32,
                },
            }),
{
    let reload = bridge.drain_pending();
    match &reload {
        Some(identifier) => {
            let source: String = identifier.clone();
            cache.compile(source);
        },
        None => {
            if cache.current.is_some() {
                cache.observe(poll);
            }
        },
    }
    let binding = builder.build(resolved_image, layout, uniform_object);
    let set = match binding {
        BuildResult::Built(s) => Some(s),
        BuildResult::NotReady => None,
        BuildResult::LayoutMismatch => None,
    };
    let dispatch = plan_dispatch(cache, set, dims, workgroup);
    FrameActions { reload, binding, dispatch }
}

} // verus!
