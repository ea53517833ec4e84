use compute_reload::allocator::{create_output_image, ComputeImage, ImageUsage, PixelFormat};
use compute_reload::binding::{BindingBuilder, BindingLayout, BuildResult, SlotKind};
use compute_reload::bridge::ReloadBridge;
use compute_reload::cache::{ProgramCache, ProgramHandle, ProgramStatus};
use compute_reload::dispatch::{plan_dispatch, workgroup_grid, Dims, DispatchOutcome, GridSize};

#[test]
fn output_image_description() {
    let img = create_output_image(256, 256, PixelFormat::Rgba32Float);
    assert_eq!(
        img,
        ComputeImage {
            width: 256,
            height: 256,
            format: PixelFormat::Rgba32Float,
            usage: ImageUsage { copy_dst: true, storage_binding: true, texture_binding: true },
            fill_r: 0,
            fill_g: 0,
            fill_b: 0,
            fill_a: 255,
        }
    );
}

#[test]
fn layout_convention_slots() {
    let layout = BindingLayout::compute_layout();
    assert_eq!(layout.slots, vec![SlotKind::UniformBuffer, SlotKind::StorageImage]);
    assert!(layout.matches_convention());
}

#[test]
fn layout_mismatch_detected() {
    let reversed = BindingLayout { slots: vec![SlotKind::StorageImage, SlotKind::UniformBuffer] };
    assert!(!reversed.matches_convention());
    let empty = BindingLayout { slots: vec![] };
    assert!(!empty.matches_convention());
}

#[test]
fn drain_on_empty_bridge_is_none() {
    let mut bridge = ReloadBridge::new();
    assert_eq!(bridge.drain_pending(), None);
}

#[test]
fn last_writer_wins() {
    let mut bridge = ReloadBridge::new();
    bridge.request_reload("a".to_string());
    bridge.request_reload("b".to_string());
    assert_eq!(bridge.drain_pending(), Some("b".to_string()));
    assert_eq!(bridge.drain_pending(), None);
}

#[test]
fn burst_collapses_to_most_recent() {
    let mut bridge = ReloadBridge::new();
    bridge.request_reload("one.wgsl".to_string());
    bridge.request_reload("two.wgsl".to_string());
    bridge.request_reload("three.wgsl".to_string());
    assert_eq!(bridge.drain_pending(), Some("three.wgsl".to_string()));
    assert_eq!(bridge.drain_pending(), None);
}

#[test]
fn grid_for_256_by_256_workgroup_8() {
    let g = workgroup_grid(Dims { width: 256, height: 256 }, 8);
    assert_eq!(g, GridSize { x: 32, y: 32, z: 1 });
}

#[test]
fn grid_rounds_up_partial_tiles() {
    assert_eq!(
        workgroup_grid(Dims { width: 250, height: 250 }, 8),
        GridSize { x: 32, y: 32, z: 1 }
    );
    assert_eq!(
        workgroup_grid(Dims { width: 257, height: 1 }, 8),
        GridSize { x: 33, y: 1, z: 1 }
    );
    assert_eq!(workgroup_grid(Dims { width: 0, height: 0 }, 8), GridSize { x: 0, y: 0, z: 1 });
    assert_eq!(workgroup_grid(Dims { width: 5, height: 9 }, 1), GridSize { x: 5, y: 9, z: 1 });
}

#[test]
fn dispatch_skipped_before_first_ready() {
    // The very first frame after startup: nothing compiled yet.
    let cache = ProgramCache::new();
    let set = None;
    let d = plan_dispatch(&cache, set, Dims { width: 256, height: 256 }, 8);
    assert_eq!(d, DispatchOutcome::Skipped);
}

#[test]
fn dispatch_skipped_while_pending() {
    let mut cache = ProgramCache::new();
    cache.compile("shaders/compute_kernel.wgsl".to_string());
    cache.observe(ProgramStatus::Pending);
    let mut builder = BindingBuilder::new();
    let layout = BindingLayout::compute_layout();
    let built = builder.build(Some(11), &layout, 3);
    let set = match built {
        BuildResult::Built(s) => Some(s),
        _ => None,
    };
    assert!(set.is_some());
    // Program not ready: no submission even though bindings exist.
    let d = plan_dispatch(&cache, set, Dims { width: 256, height: 256 }, 8);
    assert_eq!(d, DispatchOutcome::Skipped);
}

#[test]
fn dispatch_submits_when_ready_and_bound() {
    let mut cache = ProgramCache::new();
    let h = cache.compile("shaders/compute_kernel.wgsl".to_string());
    cache.observe(ProgramStatus::Ready);
    let mut builder = BindingBuilder::new();
    let layout = BindingLayout::compute_layout();
    let set = match builder.build(Some(11), &layout, 3) {
        BuildResult::Built(s) => Some(s),
        _ => None,
    };
    let d = plan_dispatch(&cache, set, Dims { width: 256, height: 256 }, 8);
    match d {
        DispatchOutcome::Submitted { program, bindings, group_index, grid } => {
            assert_eq!(program, h);
            assert_eq!(bindings.image_object, 11);
            assert_eq!(bindings.uniform_object, 3);
            assert_eq!(group_index, 0);
            assert_eq!(grid, GridSize { x: 32, y: 32, z: 1 });
        }
        DispatchOutcome::Skipped => panic!("expected a submission"),
    }
}

#[test]
fn binding_not_ready_when_image_unresolved() {
    let mut builder = BindingBuilder::new();
    let layout = BindingLayout::compute_layout();
    assert_eq!(builder.build(None, &layout, 3), BuildResult::NotReady);
    // No token was consumed by the failed attempt.
    assert_eq!(builder.next_token, 0);
}

#[test]
fn binding_fails_on_layout_mismatch() {
    let mut builder = BindingBuilder::new();
    let reversed = BindingLayout { slots: vec![SlotKind::StorageImage, SlotKind::UniformBuffer] };
    assert_eq!(builder.build(Some(11), &reversed, 3), BuildResult::LayoutMismatch);
    assert_eq!(builder.next_token, 0);
}

#[test]
fn binding_sets_never_share_a_token() {
    let mut builder = BindingBuilder::new();
    let layout = BindingLayout::compute_layout();
    // Same resolved object and uniform buffer on both frames: the sets
    // still differ, because each frame's set is freshly stamped.
    let first = match builder.build(Some(11), &layout, 3) {
        BuildResult::Built(s) => s,
        other => panic!("expected a set, got {:?}", other),
    };
    let second = match builder.build(Some(11), &layout, 3) {
        BuildResult::Built(s) => s,
        other => panic!("expected a set, got {:?}", other),
    };
    assert_ne!(first.token, second.token);
    assert_eq!(first.image_object, second.image_object);
}

#[test]
fn installed_program_stable_without_reload() {
    let mut cache = ProgramCache::new();
    let h = cache.compile("shaders/compute_kernel.wgsl".to_string());
    cache.observe(ProgramStatus::Ready);
    assert_eq!(cache.installed, Some(h));
    // Frames keep polling; whatever the compiler reports, the installed
    // handle does not move while no reload issues a new request.
    for status in [
        ProgramStatus::Ready,
        ProgramStatus::Pending,
        ProgramStatus::Failed,
        ProgramStatus::Ready,
        ProgramStatus::Ready,
    ] {
        cache.observe(status);
        assert_eq!(cache.installed, Some(h));
    }
}

#[test]
fn failed_recompile_keeps_prior_program() {
    let mut cache = ProgramCache::new();
    let first = cache.compile("shaders/compute_kernel.wgsl".to_string());
    cache.observe(ProgramStatus::Ready);
    assert_eq!(cache.installed, Some(first));

    // A reload starts a second compile; it fails.
    let second = cache.compile("shaders/compute_kernel.wgsl".to_string());
    assert_ne!(first, second);
    cache.observe(ProgramStatus::Failed);

    // The previously compiled program stays installed and in use.
    assert_eq!(cache.installed, Some(first));
    assert_eq!(cache.status, ProgramStatus::Failed);
    assert_eq!(cache.ready_program(), Some(first));
}

#[test]
fn handles_are_never_reused() {
    let mut cache = ProgramCache::new();
    let a = cache.compile("a.wgsl".to_string());
    let b = cache.compile("b.wgsl".to_string());
    let c = cache.compile("c.wgsl".to_string());
    assert_ne!(a, b);
    assert_ne!(b, c);
    assert_ne!(a, c);
    assert_eq!(cache.current, Some(ProgramHandle { id: c.id }));
    assert_eq!(cache.source, Some("c.wgsl".to_string()));
}
