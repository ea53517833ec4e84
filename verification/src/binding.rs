//! The binding builder: each frame it takes the freshly resolved GPU object
//! behind the output image's stable handle, checks the declared layout, and
//! stamps a brand-new binding set. Nothing is cached across frames, so a
//! set never outlives the object identities it was built from; each set
//! carries a token from a strictly increasing counter as its identity.

use vstd::prelude::*;

verus! {

/// The kind of resource one slot of a binding layout carries.
#[derive(Clone, Copy, PartialEq, Eq, Structural, Debug)]
pub enum SlotKind {
    /// A read-only uniform buffer of frame-global values.
    UniformBuffer,
    /// A write-only storage image, the compute kernel's output.
    StorageImage,
}

/// An ordered, immutable description of the resource slots a compute
/// program expects.
pub struct BindingLayout {
    pub slots: Vec<SlotKind>,
}

/// The fixed slot convention the compute programs here are compiled
/// against: the frame-global uniform buffer in slot 0, the writable storage
/// image in slot 1. The material stage reads the same image as a texture;
/// both sides must keep to this order by contract.
pub open spec fn expected_slots() -> Seq<SlotKind> {
    seq![SlotKind::UniformBuffer, SlotKind::StorageImage]
}

impl BindingLayout {
    /// The layout every compute program here declares: uniform buffer
    /// first, storage image second.
    pub fn compute_layout() -> (l: Self)
        ensures
            l.slots@ =~= expected_slots(),
    {
        let mut slots: Vec<SlotKind> = Vec::new();
        slots.push(SlotKind::UniformBuffer);
        slots.push(SlotKind::StorageImage);
        BindingLayout { slots }
    }

    /// Whether this layout matches the fixed convention, slot for slot.
    pub fn matches_convention(&self) -> (r: bool)
        ensures
            r == (self.slots@ =~= expected_slots()),
    {
        self.slots.len() == 2
            && matches!(self.slots[0], SlotKind::UniformBuffer)
            && matches!(self.slots[1], SlotKind::StorageImage)
    }
}

/// One frame's binding of concrete GPU objects to the layout's slots,
/// stamped with a token that no other frame's set ever shares.
#[derive(Clone, Copy, PartialEq, Eq, Structural, Debug)]
pub struct FrameBindingSet {
    /// This set's identity: fresh every frame, never reused.
    pub token: u64,
    /// The live GPU object currently behind the output image's handle,
    /// bound to the storage-image slot.
    pub image_object: u64,
    /// The frame-global uniform buffer object, bound to the uniform slot.
    pub uniform_object: u64,
}

/// What one frame's binding construction produced.
#[derive(Clone, Copy, PartialEq, Eq, Structural, Debug)]
pub enum BuildResult {
    /// A fresh set, ready for dispatch.
    Built(FrameBindingSet),
    /// The image's handle does not resolve to a live GPU object yet; skip
    /// this frame's compute work. Not an error: the normal first-frame and
    /// reload transient.
    NotReady,
    /// The layout does not match the convention the programs are compiled
    /// against; binding construction fails.
    LayoutMismatch,
}

/// Stamps each frame's binding set from a strictly increasing counter.
pub struct BindingBuilder {
    /// The token the next built set will carry.
    pub next_token: u64,
}

impl BindingBuilder {
    /// A fresh builder; no set has been stamped yet.
    pub fn new() -> (b: Self)
        ensures
            b.next_token == 0,
    {
        BindingBuilder { next_token: 0 }
    }

    /// Build this frame's binding set from the object just resolved for the
    /// output image and the frame-global uniform buffer. Succeeds exactly
    /// when the layout matches the convention and the image resolved; only
    /// then is a token consumed. `resolved_image` is `None` when the host's
    /// registry could not resolve the handle to a live object this frame.
    pub fn build(
        &mut self,
        resolved_image: Option<u64>,
        layout: &BindingLayout,
        uniform_object: u64,
    ) -> (r: BuildResult)
        requires
            old(self).next_token < u64::MAX,
        ensures
            !(layout.slots@ =~= expected_slots()) ==> r is LayoutMismatch
                && *final(self) == *old(self),
            layout.slots@ =~= expected_slots() && resolved_image is None ==> r is NotReady
                && *final(self) == *old(self),
            layout.slots@ =~= expected_slots() && resolved_image is Some
                ==> r == BuildResult::Built(FrameBindingSet {
                    token: old(self).next_token,
                    image_object: resolved_image->0,
                    uniform_object: uniform_object,
                }) && final(self).next_token == old(self).next_token + 1,
    {
        if !layout.matches_convention() {
            return BuildResult::LayoutMismatch;
        }
        match resolved_image {
            None => BuildResult::NotReady,
            Some(obj) => {
                let token = self.next_token;
                self.next_token = self.next_token + 1;
                BuildResult::Built(FrameBindingSet {
                    token,
                    image_object: obj,
                    uniform_object,
                })
            },
        }
    }
}

/// The tokens a builder stamps over a run of frames, starting with counter
/// `next`; `built[i]` says whether frame `i` actually built a set (layout
/// matched and the image resolved).
pub open spec fn issued_tokens(next: int, built: Seq<bool>) -> Seq<int>
    decreases built.len(),
{
    if built.len() == 0 {
        Seq::empty()
    } else if built[0] {
        seq![next] + issued_tokens(next + 1, built.drop_first())
    } else {
        issued_tokens(next, built.drop_first())
    }
}

/// Every token issued from counter `next` onward is at least `next`.
proof fn lemma_issued_tokens_lower_bound(next: int, built: Seq<bool>)
    ensures
        forall|i: int|
            0 <= i < issued_tokens(next, built).len() ==> issued_tokens(next, built)[i] >= next,
    decreases built.len(),
{
    if built.len() > 0 {
        let rest = built.drop_first();
        if built[0] {
            lemma_issued_tokens_lower_bound(next + 1, rest);
            let toks = issued_tokens(next, built);
            let tail = issued_tokens(next + 1, rest);
            assert(toks == seq![next] + tail);
            assert forall|i: int| 0 <= i < toks.len() implies toks[i] >= next by {
                if i > 0 {
                    assert(toks[i] == tail[i - 1]);
                }
            }
        } else {
            lemma_issued_tokens_lower_bound(next, rest);
            assert(issued_tokens(next, built) == issued_tokens(next, rest));
        }
    }
}

/// Binding-set identities are never reused: over any run of frames, the
/// tokens stamped on the built sets are strictly increasing, so two
/// different frames' sets are never the same identity — even when the
/// resolved GPU object behind them is unchanged.
pub proof fn lemma_tokens_never_reused(next: int, built: Seq<bool>)
    ensures
        forall|i: int, j: int|
            0 <= i < j < issued_tokens(next, built).len()
                ==> issued_tokens(next, built)[i] < issued_tokens(next, built)[j],
    decreases built.len(),
{
    if built.len() > 0 {
        let rest = built.drop_first();
        if built[0] {
            lemma_tokens_never_reused(next + 1, rest);
            lemma_issued_tokens_lower_bound(next + 1, rest);
            assert forall|i: int, j: int|
                0 <= i < j < issued_tokens(next, built).len()
                    implies issued_tokens(next, built)[i] < issued_tokens(next, built)[j] by {
                let toks = issued_tokens(next, built);
                let tail = issued_tokens(next + 1, rest);
                assert(toks == seq![next] + tail);
                if i == 0 {
                    assert(toks[j] == tail[j - 1]);
                } else {
                    assert(toks[i] == tail[i - 1]);
                    assert(toks[j] == tail[j - 1]);
                }
            }
        } else {
            lemma_tokens_never_reused(next, rest);
            assert(issued_tokens(next, built) == issued_tokens(next, rest));
        }
    }
}

} // verus!
