//! Planning a swapchain and its recreation. A swapchain must be rebuilt as a
//! whole — chain, image views, framebuffers and pipeline — whenever the
//! surface changes, and nothing referenced by in-flight work may be destroyed
//! before that work's fence has been waited on.

use vstd::prelude::*;

use crate::surface::{
    choose_present_mode, choose_surface_format, select_extent, spec_choose_format,
    spec_choose_present_mode, spec_select_extent, swapchain_image_count, Extent2D, PresentMode,
    SurfaceCapabilities, SurfaceFormat,
};

verus! {

/// Everything extent-dependent that a swapchain is created with. The pipeline
/// bakes the extent into its viewport, so the config covers it too.
#[derive(Clone, Copy, PartialEq, Eq, Structural, Debug)]
pub struct SwapchainConfig {
    pub image_count: u32,
    pub format: SurfaceFormat,
    pub extent: Extent2D,
    pub present_mode: PresentMode,
}

/// The config a new swapchain gets, as a function of the surface data alone.
pub open spec fn spec_plan_swapchain(
    caps: SurfaceCapabilities,
    formats: Seq<SurfaceFormat>,
    modes: Seq<PresentMode>,
    window: Extent2D,
) -> SwapchainConfig {
    SwapchainConfig {
        image_count: (caps.min_image_count + 1) as u32,
        format: spec_choose_format(formats),
        extent: spec_select_extent(caps, window),
        present_mode: spec_choose_present_mode(modes),
    }
}

/// Build the config for a new swapchain from what the surface reports and the
/// window's pixel size. The previous swapchain plays no part: it is only
/// handed over as a handle at creation time.
pub fn plan_swapchain(
    caps: &SurfaceCapabilities,
    formats: &Vec<SurfaceFormat>,
    modes: &Vec<PresentMode>,
    window: Extent2D,
) -> (c: SwapchainConfig)
    requires
        formats@.len() > 0,
        modes@.len() > 0,
        caps.min_image_count < 0xffff_ffff,
    ensures
        c == spec_plan_swapchain(*caps, formats@, modes@, window),
{
    SwapchainConfig {
        image_count: swapchain_image_count(caps),
        format: choose_surface_format(formats),
        extent: select_extent(caps, window),
        present_mode: choose_present_mode(modes),
    }
}

/// How swapchain images are shared between queue families: concurrently when
/// more than one family uses them, exclusively otherwise.
#[derive(Clone, Copy, PartialEq, Eq, Structural, Debug)]
pub enum SharingMode {
    Exclusive,
    Concurrent,
}

pub fn sharing_mode(queue_family_count: usize) -> (r: SharingMode)
    ensures
        r == (if queue_family_count > 1 {
            SharingMode::Concurrent
        } else {
            SharingMode::Exclusive
        }),
{
    if queue_family_count > 1 {
        SharingMode::Concurrent
    } else {
        SharingMode::Exclusive
    }
}

/// Repeated recreation with unchanged surface data keeps the image count and
/// the format: the config of each recreation is a function of that data alone,
/// never of the swapchain being replaced.
pub proof fn lemma_recreate_idempotent(
    first: SwapchainConfig,
    second: SwapchainConfig,
    caps: SurfaceCapabilities,
    formats: Seq<SurfaceFormat>,
    modes: Seq<PresentMode>,
    window: Extent2D,
)
    requires
        first == spec_plan_swapchain(caps, formats, modes, window),
        second == spec_plan_swapchain(caps, formats, modes, window),
    ensures
        second.image_count == first.image_count,
        second.format == first.format,
        second == first,
{
}

/// One step of rebuilding the presentation state. The slot index names one of
/// the two frame slots.
#[derive(Clone, Copy, PartialEq, Eq, Structural, Debug)]
pub enum RecreateStep {
    /// Wait on the named slot's frame-complete fence.
    WaitSlotFence(u8),
    DestroyFramebuffers,
    DestroyPipeline,
    DestroyImageViews,
    /// Query the surface's capabilities and pick the new extent.
    QuerySurface,
    /// Create the new chain, handing it the old one's handle.
    CreateSwapchain,
    DestroyOldSwapchain,
    /// Only taken when the new chain's image count differs from the old one's.
    RebuildDescriptorPool,
    CreatePipeline,
    CreateFramebuffers,
}

pub open spec fn is_destroy_step(s: RecreateStep) -> bool {
    s == RecreateStep::DestroyFramebuffers || s == RecreateStep::DestroyPipeline || s
        == RecreateStep::DestroyImageViews || s == RecreateStep::DestroyOldSwapchain || s
        == RecreateStep::RebuildDescriptorPool
}

/// Index of the slot that is not the current one.
pub open spec fn spec_other_slot(parity: bool) -> u8 {
    if parity {
        0
    } else {
        1
    }
}

/// The steps of one recreation, in the order they must run. `parity` is the
/// scheduler's current slot parity; the slot that may still be in flight is
/// the other one, and its fence is waited on first.
pub open spec fn spec_recreate_plan(parity: bool, image_count_changed: bool) -> Seq<RecreateStep> {
    let head = seq![
        RecreateStep::WaitSlotFence(spec_other_slot(parity)),
        RecreateStep::DestroyFramebuffers,
        RecreateStep::DestroyPipeline,
        RecreateStep::DestroyImageViews,
        RecreateStep::QuerySurface,
        RecreateStep::CreateSwapchain,
        RecreateStep::DestroyOldSwapchain,
    ];
    let tail = seq![RecreateStep::CreatePipeline, RecreateStep::CreateFramebuffers];
    if image_count_changed {
        head + seq![RecreateStep::RebuildDescriptorPool] + tail
    } else {
        head + tail
    }
}

pub fn recreate_plan(parity: bool, image_count_changed: bool) -> (p: Vec<RecreateStep>)
    ensures
        p@ == spec_recreate_plan(parity, image_count_changed),
{
    let other: u8 = if parity {
        0
    } else {
        1
    };
    let mut p: Vec<RecreateStep> = Vec::new();
    p.push(RecreateStep::WaitSlotFence(other));
    p.push(RecreateStep::DestroyFramebuffers);
    p.push(RecreateStep::DestroyPipeline);
    p.push(RecreateStep::DestroyImageViews);
    p.push(RecreateStep::QuerySurface);
    p.push(RecreateStep::CreateSwapchain);
    p.push(RecreateStep::DestroyOldSwapchain);
    if image_count_changed {
        p.push(RecreateStep::RebuildDescriptorPool);
    }
    p.push(RecreateStep::CreatePipeline);
    p.push(RecreateStep::CreateFramebuffers);
    proof {
        assert(p@ =~= spec_recreate_plan(parity, image_count_changed));
    }
    p
}

/// The steps of tearing the window's presentation state down, in order: the
/// possibly in-flight slot's fence is waited on before anything is destroyed.
#[derive(Clone, Copy, PartialEq, Eq, Structural, Debug)]
pub enum TeardownStep {
    WaitSlotFence(u8),
    DisposeSlot(u8),
    DestroyDescriptorPool,
    DestroyFramebuffers,
    DestroyPipeline,
    DestroyImageViews,
    DestroySwapchain,
    DestroyRenderPass,
    DestroySurface,
}

pub open spec fn spec_teardown_plan(parity: bool) -> Seq<TeardownStep> {
    seq![
        TeardownStep::WaitSlotFence(spec_other_slot(parity)),
        TeardownStep::DisposeSlot(0),
        TeardownStep::DisposeSlot(1),
        TeardownStep::DestroyDescriptorPool,
        TeardownStep::DestroyFramebuffers,
        TeardownStep::DestroyPipeline,
        TeardownStep::DestroyImageViews,
        TeardownStep::DestroySwapchain,
        TeardownStep::DestroyRenderPass,
        TeardownStep::DestroySurface,
    ]
}

pub fn teardown_plan(parity: bool) -> (p: Vec<TeardownStep>)
    ensures
        p@ == spec_teardown_plan(parity),
{
    let other: u8 = if parity {
        0
    } else {
        1
    };
    let mut p: Vec<TeardownStep> = Vec::new();
    p.push(TeardownStep::WaitSlotFence(other));
    p.push(TeardownStep::DisposeSlot(0));
    p.push(TeardownStep::DisposeSlot(1));
    p.push(TeardownStep::DestroyDescriptorPool);
    p.push(TeardownStep::DestroyFramebuffers);
    p.push(TeardownStep::DestroyPipeline);
    p.push(TeardownStep::DestroyImageViews);
    p.push(TeardownStep::DestroySwapchain);
    p.push(TeardownStep::DestroyRenderPass);
    p.push(TeardownStep::DestroySurface);
    proof {
        assert(p@ =~= spec_teardown_plan(parity));
    }
    p
}

/// No destruction before the fence wait: in every recreation plan the wait on
/// the non-current slot's fence comes first, strictly before each step that
/// destroys a resource an in-flight frame could still reference; the teardown
/// plan opens with the same wait before anything is disposed or destroyed.
pub proof fn lemma_no_use_after_free(parity: bool, image_count_changed: bool)
    ensures
        spec_recreate_plan(parity, image_count_changed)[0] == RecreateStep::WaitSlotFence(
            spec_other_slot(parity),
        ),
        forall|i: int|
            0 <= i < spec_recreate_plan(parity, image_count_changed).len() && is_destroy_step(
                spec_recreate_plan(parity, image_count_changed)[i],
            ) ==> i > 0,
        spec_teardown_plan(parity)[0] == TeardownStep::WaitSlotFence(spec_other_slot(parity)),
        forall|i: int|
            0 < i < spec_teardown_plan(parity).len() ==> spec_teardown_plan(parity)[i]
                != TeardownStep::WaitSlotFence(spec_other_slot(parity)),
{
    let p = spec_recreate_plan(parity, image_count_changed);
    assert forall|i: int| 0 <= i < p.len() && is_destroy_step(p[i]) implies i > 0 by {
        assert(p[0] == RecreateStep::WaitSlotFence(spec_other_slot(parity)));
    }
}

} // verus!
