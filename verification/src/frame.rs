//! The double-buffered present loop. Two frame slots alternate by a parity
//! bit: the GPU may still be executing one slot's work while the CPU records
//! the other, and a slot is only re-recorded after the wait on its
//! frame-complete fence. At most two frames are ever submitted and unretired.

use vstd::prelude::*;

verus! {

/// The CPU-side state of one of the two frame slots.
#[derive(Clone, Copy, PartialEq, Eq, Structural, Debug)]
pub struct SlotState {
    /// Whether this slot's last submission has not yet been retired by a wait
    /// on its frame-complete fence.
    pub pending: bool,
    /// How many secondary command buffers the slot's pool holds. The pool
    /// only grows, so buffers are reused across frames.
    pub secondaries: usize,
}

/// What acquiring the next presentable image reported. Any other error is
/// fatal and never reaches the scheduler.
#[derive(Clone, Copy, PartialEq, Eq, Structural, Debug)]
pub enum AcquireOutcome {
    /// An image was acquired; `suboptimal` means the chain still works but no
    /// longer matches the surface exactly.
    Image { index: u32, suboptimal: bool },
    /// The chain is stale: the frame is abandoned and a recreation scheduled.
    OutOfDate,
}

/// What presenting the finished image reported. Any other error is fatal and
/// never reaches the scheduler.
#[derive(Clone, Copy, PartialEq, Eq, Structural, Debug)]
pub enum PresentOutcome {
    Presented { suboptimal: bool },
    OutOfDate,
}

/// The frame scheduler: slot states, the parity naming the slot the next
/// frame starts from, the deferred-recreation flag, and counters of
/// submissions and of fence waits that retired one.
#[derive(Clone, Copy, PartialEq, Eq, Structural, Debug)]
pub struct FrameScheduler {
    pub slot0: SlotState,
    pub slot1: SlotState,
    pub parity: bool,
    pub recreate_pending: bool,
    pub submits: u64,
    pub retires: u64,
}

impl FrameScheduler {
    pub open spec fn slot_at(self, parity: bool) -> SlotState {
        if parity {
            self.slot1
        } else {
            self.slot0
        }
    }

    /// The slot the next frame will acquire and wait on.
    pub open spec fn current_slot(self) -> SlotState {
        self.slot_at(self.parity)
    }

    /// How many submissions are still unretired.
    pub open spec fn in_flight(self) -> int {
        (if self.slot0.pending {
            1int
        } else {
            0int
        }) + (if self.slot1.pending {
            1int
        } else {
            0int
        })
    }

    /// Every submission is either retired or pending in exactly one slot.
    pub open spec fn wf(self) -> bool {
        self.submits == self.retires + self.in_flight()
    }

    /// A fresh scheduler: nothing in flight, slot 0 first, no recreation due.
    /// Each slot's fence is created signalled, which the model renders as the
    /// slot simply not being pending.
    pub fn new() -> (s: FrameScheduler)
        ensures
            s == (FrameScheduler {
                slot0: SlotState { pending: false, secondaries: 0 },
                slot1: SlotState { pending: false, secondaries: 0 },
                parity: false,
                recreate_pending: false,
                submits: 0,
                retires: 0,
            }),
            s.wf(),
    {
        FrameScheduler {
            slot0: SlotState { pending: false, secondaries: 0 },
            slot1: SlotState { pending: false, secondaries: 0 },
            parity: false,
            recreate_pending: false,
            submits: 0,
            retires: 0,
        }
    }

    /// Whether a swapchain recreation must run before the next frame.
    pub fn needs_recreate(&self) -> (r: bool)
        ensures
            r == self.recreate_pending,
    {
        self.recreate_pending
    }

    /// Record that the pending recreation ran. Recreation waits on the
    /// non-current slot's fence — the only slot whose work could still be in
    /// flight there — so that slot is retired here.
    pub fn complete_recreate(&mut self)
        requires
            old(self).wf(),
        ensures
            final(self).wf(),
            final(self).recreate_pending == false,
            final(self).parity == old(self).parity,
            final(self).submits == old(self).submits,
            final(self).slot_at(old(self).parity) == old(self).slot_at(old(self).parity),
            final(self).slot_at(!old(self).parity).pending == false,
            final(self).slot_at(!old(self).parity).secondaries == old(self).slot_at(
                !old(self).parity,
            ).secondaries,
            final(self).retires == old(self).retires + (if old(self).slot_at(
                !old(self).parity,
            ).pending {
                1int
            } else {
                0int
            }),
    {
        self.recreate_pending = false;
        if self.parity {
            if self.slot0.pending {
                self.slot0.pending = false;
                self.retires = self.retires + 1;
            }
        } else {
            if self.slot1.pending {
                self.slot1.pending = false;
                self.retires = self.retires + 1;
            }
        }
    }

    /// Start a frame from an acquire outcome. A stale chain abandons the
    /// frame and defers a recreation. Otherwise the current slot's fence is
    /// waited on and reset — retiring whatever that slot last submitted — and
    /// the parity toggles, so the frame now being recorded owns the slot that
    /// was just waited on. Returns the acquired image's index, or nothing
    /// when the frame is abandoned.
    pub fn begin_frame(&mut self, acquire: AcquireOutcome) -> (r: Option<u32>)
        requires
            old(self).wf(),
        ensures
            final(self).wf(),
            match acquire {
                AcquireOutcome::OutOfDate => ({
                    &&& r is None
                    &&& *final(self) == (FrameScheduler { recreate_pending: true, ..*old(self) })
                }),
                AcquireOutcome::Image { index, suboptimal } => ({
                    &&& r == Some(index)
                    &&& final(self).parity == !old(self).parity
                    &&& final(self).slot_at(old(self).parity).pending == false
                    &&& final(self).slot_at(old(self).parity).secondaries == old(self).slot_at(
                        old(self).parity,
                    ).secondaries
                    &&& final(self).slot_at(!old(self).parity) == old(self).slot_at(
                        !old(self).parity,
                    )
                    &&& final(self).recreate_pending == (old(self).recreate_pending || suboptimal)
                    &&& final(self).submits == old(self).submits
                    &&& final(self).retires == old(self).retires + (if old(
                        self,
                    ).current_slot().pending {
                        1int
                    } else {
                        0int
                    })
                }),
            },
    {
        match acquire {
            AcquireOutcome::OutOfDate => {
                self.recreate_pending = true;
                None
            },
            AcquireOutcome::Image { index, suboptimal } => {
                if suboptimal {
                    self.recreate_pending = true;
                }
                if self.parity {
                    if self.slot1.pending {
                        self.slot1.pending = false;
                        self.retires = self.retires + 1;
                    }
                } else {
                    if self.slot0.pending {
                        self.slot0.pending = false;
                        self.retires = self.retires + 1;
                    }
                }
                self.parity = !self.parity;
                Some(index)
            },
        }
    }

    /// Record and submit the frame begun by `begin_frame`. The frame owns the
    /// slot the parity just moved away from; that slot's fence was waited on,
    /// so it must not be pending. Its secondary pool grows to one buffer per
    /// drawable and never shrinks. Submission waits on the slot's
    /// image-acquired semaphore, signals its render-finished semaphore and
    /// signals its frame-complete fence, making the slot pending again.
    pub fn submit_frame(&mut self, volumes: usize)
        requires
            old(self).wf(),
            !old(self).slot_at(!old(self).parity).pending,
            old(self).submits < 0xffff_ffff_ffff_ffff,
        ensures
            final(self).wf(),
            final(self).parity == old(self).parity,
            final(self).recreate_pending == old(self).recreate_pending,
            final(self).retires == old(self).retires,
            final(self).submits == old(self).submits + 1,
            final(self).slot_at(old(self).parity) == old(self).slot_at(old(self).parity),
            final(self).slot_at(!old(self).parity).pending == true,
            final(self).slot_at(!old(self).parity).secondaries == (if old(self).slot_at(
                !old(self).parity,
            ).secondaries >= volumes {
                old(self).slot_at(!old(self).parity).secondaries
            } else {
                volumes
            }),
            final(self).slot_at(!old(self).parity).secondaries >= old(self).slot_at(
                !old(self).parity,
            ).secondaries,
    {
        if self.parity {
            if self.slot0.secondaries < volumes {
                self.slot0.secondaries = volumes;
            }
            self.slot0.pending = true;
        } else {
            if self.slot1.secondaries < volumes {
                self.slot1.secondaries = volumes;
            }
            self.slot1.pending = true;
        }
        self.submits = self.submits + 1;
    }

    /// Fold the present outcome in: a suboptimal or stale present schedules a
    /// recreation for the next iteration and is never fatal.
    pub fn finish_present(&mut self, outcome: PresentOutcome)
        ensures
            *final(self) == (FrameScheduler {
                recreate_pending: old(self).recreate_pending || (match outcome {
                    PresentOutcome::Presented { suboptimal } => suboptimal,
                    PresentOutcome::OutOfDate => true,
                }),
                ..*old(self)
            }),
    {
        match outcome {
            PresentOutcome::Presented { suboptimal } => {
                if suboptimal {
                    self.recreate_pending = true;
                }
            },
            PresentOutcome::OutOfDate => {
                self.recreate_pending = true;
            },
        }
    }
}

/// The protocol never wedges: after a frame is begun successfully, the slot it
/// owns — the one the parity moved away from — has been retired by the fence
/// wait, so the scheduler always meets `submit_frame`'s demand on that slot.
pub proof fn lemma_begin_enables_submit(before: FrameScheduler, after: FrameScheduler)
    requires
        after.parity == !before.parity,
        after.slot_at(before.parity).pending == false,
    ensures
        !after.slot_at(!after.parity).pending,
{
}

/// The frame-in-flight bound: a well-formed scheduler never has more than two
/// submitted-but-unretired frames, and never retires more than it submitted.
pub proof fn lemma_frames_in_flight_bound(s: FrameScheduler)
    requires
        s.wf(),
    ensures
        s.retires <= s.submits,
        s.submits - s.retires <= 2,
{
}

/// One queued in-place write to the voxel volume, naming the cell it targets.
#[derive(Clone, Copy, PartialEq, Eq, Structural, Debug)]
pub struct VoxelEdit {
    pub x: u32,
    pub y: u32,
    pub z: u32,
}

/// One command recorded into the frame's primary buffer.
#[derive(Clone, Copy, PartialEq, Eq, Structural, Debug)]
pub enum FrameCommand {
    /// Point the stencil descriptor at the voxel image, done once per frame
    /// that carries edits.
    UpdateStencilDescriptor,
    /// Transition the voxel image from shader-read-only to general layout so
    /// the compute pass may write it.
    TransitionToGeneral,
    /// Push the edit's cell coordinates as compute push constants.
    PushStencilConstants(VoxelEdit),
    BindStencilPipeline,
    BindStencilDescriptor,
    DispatchStencil,
    /// Transition the voxel image back to shader-read-only layout for the
    /// fragment shader.
    TransitionToReadOnly,
    /// Begin the render pass, clearing the colour attachment to opaque black.
    BeginRenderPass,
    /// Execute the first `0` .. `n` secondary buffers, one per drawable.
    ExecuteSecondaries(usize),
    EndRenderPass,
}

/// The compute-pass commands one voxel edit records: the write is bracketed
/// by the two layout transitions.
pub open spec fn stencil_block(e: VoxelEdit) -> Seq<FrameCommand> {
    seq![
        FrameCommand::TransitionToGeneral,
        FrameCommand::PushStencilConstants(e),
        FrameCommand::BindStencilPipeline,
        FrameCommand::BindStencilDescriptor,
        FrameCommand::DispatchStencil,
        FrameCommand::TransitionToReadOnly,
    ]
}

pub open spec fn stencil_blocks(edits: Seq<VoxelEdit>) -> Seq<FrameCommand>
    decreases edits.len(),
{
    if edits.len() == 0 {
        Seq::empty()
    } else {
        stencil_blocks(edits.drop_last()) + stencil_block(edits.last())
    }
}

/// Everything one frame's primary buffer records, in order: the queued voxel
/// edits' compute passes, then the render pass that draws the volumes.
pub open spec fn spec_frame_commands(volumes: usize, edits: Seq<VoxelEdit>) -> Seq<FrameCommand> {
    (if edits.len() > 0 {
        seq![FrameCommand::UpdateStencilDescriptor]
    } else {
        Seq::<FrameCommand>::empty()
    }) + stencil_blocks(edits) + seq![
        FrameCommand::BeginRenderPass,
        FrameCommand::ExecuteSecondaries(volumes),
        FrameCommand::EndRenderPass,
    ]
}

/// Lay out the primary command buffer for one frame: `volumes` drawables and
/// the queued voxel edits, drained in queue order.
pub fn frame_commands(volumes: usize, edits: &Vec<VoxelEdit>) -> (p: Vec<FrameCommand>)
    ensures
        p@ == spec_frame_commands(volumes, edits@),
{
    let mut p: Vec<FrameCommand> = Vec::new();
    if edits.len() > 0 {
        p.push(FrameCommand::UpdateStencilDescriptor);
    }
    let ghost head = p@;
    let mut i: usize = 0;
    proof {
        assert(p@ =~= head + stencil_blocks(edits@.take(0)));
    }
    while i < edits.len()
        invariant
            0 <= i <= edits@.len(),
            p@ == head + stencil_blocks(edits@.take(i as int)),
        decreases edits@.len() - i,
    {
        let e = edits[i];
        p.push(FrameCommand::TransitionToGeneral);
        p.push(FrameCommand::PushStencilConstants(e));
        p.push(FrameCommand::BindStencilPipeline);
        p.push(FrameCommand::BindStencilDescriptor);
        p.push(FrameCommand::DispatchStencil);
        p.push(FrameCommand::TransitionToReadOnly);
        proof {
            assert(edits@.take(i + 1).drop_last() =~= edits@.take(i as int));
            assert(edits@.take(i + 1).last() == edits@[i as int]);
            assert(p@ =~= head + stencil_blocks(edits@.take(i + 1)));
        }
        i += 1;
    }
    p.push(FrameCommand::BeginRenderPass);
    p.push(FrameCommand::ExecuteSecondaries(volumes));
    p.push(FrameCommand::EndRenderPass);
    proof {
        assert(edits@.take(edits@.len() as int) =~= edits@);
        assert(p@ =~= spec_frame_commands(volumes, edits@));
    }
    p
}

/// Every voxel write is fenced: in each edit's block the transition to the
/// writable layout comes before the dispatch, and the transition back to the
/// readable layout comes after it.
pub proof fn lemma_stencil_write_is_bracketed(e: VoxelEdit)
    ensures
        stencil_block(e)[0] == FrameCommand::TransitionToGeneral,
        stencil_block(e)[4] == FrameCommand::DispatchStencil,
        stencil_block(e)[5] == FrameCommand::TransitionToReadOnly,
        stencil_block(e).len() == 6,
{
}

} // verus!
