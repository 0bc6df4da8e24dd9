//! The engine: one render target, one draw list, one draw at a time.
//!
//! The engine owns the draw state machine, the negotiated swapchain
//! configuration, the current window size and the recorded draw list. The
//! shell drives it: it asks to begin a draw, performs each driver call the
//! machine prescribes, and reports every outcome back. A zero-area window
//! skips the draw entirely, and a stale swapchain routes through the
//! recreation path before the next draw.

use vstd::prelude::*;

use crate::frame::{
    AcquireDecision, AcquireOutcome, DrawPhase, Frame, PresentOutcome, present_needs_resize,
};
use crate::mesh::{Mesh, MeshDraw, spec_mesh_draw};
use crate::pipeline::{spec_le_bytes, world_data_bytes, WORLD_DATA_BUFFER_SIZE};
use crate::swapchain::{
    SwapchainConfig, SwapchainSupportInfo, plan_swapchain, spec_image_count, spec_plan_swapchain,
    support_wf,
};

verus! {

/// The engine's answer to a draw request.
#[derive(Clone, Copy, Debug, PartialEq, Eq, Structural)]
pub enum DrawBegin {
    /// The window has no area; nothing is acquired, submitted or
    /// presented, and the engine state is untouched.
    Skip,
    /// Proceed: wait on slot `slot`'s fence, then acquire an image with
    /// slot `slot`'s image-available semaphore.
    Wait { slot: usize },
}

/// The verified core of the engine: every decision of the frame loop, with
/// the driver calls left to the shell.
pub struct Engine {
    /// The draw state machine and its synchronization slots.
    pub frame: Frame,
    /// The currently negotiated swapchain configuration.
    pub config: SwapchainConfig,
    /// The current window size in pixels.
    pub window_size: [u32; 2],
    /// A swapchain recreation is owed before the next draw.
    pub needs_recreate: bool,
    /// Queue family the graphics queue was created from.
    pub graphics_family: u32,
    /// Queue family the present queue was created from.
    pub present_family: u32,
    /// The draw list the command buffers are recorded from.
    pub draw_list: Vec<MeshDraw>,
    /// The view matrix, sixteen 32-bit entries carried as bit patterns.
    pub view: [u32; 16],
    /// The projection matrix, sixteen 32-bit entries carried as bit
    /// patterns.
    pub projection: [u32; 16],
}

/// The engine state after the recreation path: the swapchain configuration
/// is renegotiated from the current surface data and window size, the
/// recreation debt is cleared, and everything else is kept.
pub open spec fn spec_recreate(e: Engine, support: SwapchainSupportInfo) -> Engine {
    Engine {
        config: spec_plan_swapchain(support, e.window_size, e.graphics_family, e.present_family),
        needs_recreate: false,
        ..e
    }
}

impl Engine {
    /// Well-formedness: the draw state machine is well formed.
    pub open spec fn wf(&self) -> bool {
        self.frame.wf()
    }

    /// Creates the engine for a surface: negotiates the initial swapchain
    /// configuration and sets up one synchronization slot per swapchain
    /// image.
    pub fn new(
        support: &SwapchainSupportInfo,
        window_size: [u32; 2],
        graphics_family: u32,
        present_family: u32,
    ) -> (r: Engine)
        requires
            support_wf(*support),
        ensures
            r.wf(),
            r.config == spec_plan_swapchain(*support, window_size, graphics_family, present_family),
            r.window_size == window_size,
            r.needs_recreate == false,
            r.graphics_family == graphics_family,
            r.present_family == present_family,
            r.draw_list@.len() == 0,
            r.view@ =~= Seq::new(16, |i: int| 0u32),
            r.projection@ =~= Seq::new(16, |i: int| 0u32),
            r.frame.phase is Idle,
            r.frame.current_frame == 0,
            r.frame.sync.spec_max_frames_in_flight() == r.config.image_count,
    {
        let config = plan_swapchain(support, window_size, graphics_family, present_family);
        proof {
            assert(spec_image_count(support.capabilities) >= 1);
        }
        let frame = Frame::new(config.image_count as usize);
        Engine {
            frame,
            config,
            window_size,
            needs_recreate: false,
            graphics_family,
            present_family,
            draw_list: Vec::new(),
            view: [0; 16],
            projection: [0; 16],
        }
    }

    /// Sets the view and projection matrices for the coming draws, as the
    /// bit patterns of their sixteen 32-bit entries each. The acquired
    /// image's uniform buffer is written from them between the acquisition
    /// and the submission, since the recorded command buffer of each image
    /// binds that image's descriptor set.
    pub fn set_view_projection(&mut self, view: [u32; 16], projection: [u32; 16])
        ensures
            *final(self) == (Engine { view, projection, ..*old(self) }),
    {
        self.view = view;
        self.projection = projection;
    }

    /// The bytes of the current view and projection matrices, laid out as
    /// the per-slot uniform buffer expects them.
    pub fn world_data_bytes(&self) -> (r: Vec<u8>)
        ensures
            r@.len() == WORLD_DATA_BUFFER_SIZE,
            forall|i: int|
                0 <= i < 16 ==> r@.subrange(4 * i, 4 * i + 4) =~= spec_le_bytes(
                    #[trigger] self.view@[i],
                ),
            forall|i: int|
                0 <= i < 16 ==> r@.subrange(64 + 4 * i, 64 + 4 * i + 4) =~= spec_le_bytes(
                    #[trigger] self.projection@[i],
                ),
    {
        world_data_bytes(&self.view, &self.projection)
    }

    /// Notes a window resize: the new size takes effect through the
    /// recreation path before the next draw.
    pub fn notify_resize(&mut self, new_size: [u32; 2])
        ensures
            *final(self) == (Engine { window_size: new_size, needs_recreate: true, ..*old(self) }),
    {
        self.window_size = new_size;
        self.needs_recreate = true;
    }

    /// Replaces the draw list with one entry per mesh: its buffers bound
    /// at offset zero and its full index count.
    pub fn update_meshes(&mut self, meshes: &Vec<Mesh>)
        ensures
            final(self).draw_list@.len() == meshes@.len(),
            forall|i: int|
                0 <= i < meshes@.len() ==> #[trigger] final(self).draw_list@[i] == spec_mesh_draw(
                    meshes@[i],
                ),
            final(self).frame == old(self).frame,
            final(self).config == old(self).config,
            final(self).window_size == old(self).window_size,
            final(self).needs_recreate == old(self).needs_recreate,
            final(self).graphics_family == old(self).graphics_family,
            final(self).present_family == old(self).present_family,
    {
        let n: usize = meshes.len();
        let mut draw_list: Vec<MeshDraw> = Vec::new();
        let mut i: usize = 0;
        while i < n
            invariant
                n == meshes@.len(),
                0 <= i <= n,
                draw_list@.len() == i,
                forall|j: int|
                    0 <= j < i ==> #[trigger] draw_list@[j] == spec_mesh_draw(meshes@[j]),
            decreases n - i,
        {
            let mesh = &meshes[i];
            draw_list.push(
                MeshDraw {
                    vertex_buffer: mesh.vertex_buffer(),
                    index_buffer: mesh.index_buffer(),
                    vertex_offset: 0,
                    index_count: mesh.index_count(),
                },
            );
            i = i + 1;
        }
        self.draw_list = draw_list;
    }

    /// Runs the recreation path after the shell has waited for the device
    /// to go idle: renegotiates the swapchain configuration at the current
    /// window size and clears the recreation debt. The shell must then
    /// destroy and recreate the swapchain, its image views, the G-buffer
    /// attachments, the framebuffers and the command buffers from the new
    /// configuration, and rebind the input-attachment descriptor sets to
    /// the new attachments.
    pub fn recreate(&mut self, support: &SwapchainSupportInfo)
        requires
            old(self).wf(),
            old(self).frame.phase is Idle,
            support_wf(*support),
        ensures
            *final(self) == spec_recreate(*old(self), *support),
            final(self).wf(),
            final(self).frame.phase is Idle,
    {
        self.config = plan_swapchain(
            support,
            self.window_size,
            self.graphics_family,
            self.present_family,
        );
        self.needs_recreate = false;
    }

    /// Requests a draw. A zero-area window is a legal transient state, not
    /// an error: the draw is skipped without acquiring, submitting or
    /// presenting, and the engine is untouched. Otherwise the shell must
    /// wait on the returned slot's fence and acquire an image with that
    /// slot's image-available semaphore.
    pub fn begin_draw(&mut self) -> (r: DrawBegin)
        requires
            old(self).wf(),
            old(self).frame.phase is Idle,
            !old(self).needs_recreate,
        ensures
            final(self).wf(),
            old(self).window_size[0] == 0 || old(self).window_size[1] == 0 ==> r is Skip && *final(self) == *old(self),
            old(self).window_size[0] != 0 && old(self).window_size[1] != 0 ==> {
                &&& r == (DrawBegin::Wait { slot: old(self).frame.current_frame })
                &&& final(self).frame.phase is Waited
                &&& final(self).frame.current_frame == old(self).frame.current_frame
                &&& final(self).frame.slot_history@ == old(self).frame.slot_history@
                &&& final(self).config == old(self).config
                &&& final(self).window_size == old(self).window_size
                &&& final(self).needs_recreate == old(self).needs_recreate
                &&& final(self).draw_list == old(self).draw_list
            },
    {
        if self.window_size[0] == 0 || self.window_size[1] == 0 {
            return DrawBegin::Skip;
        }
        let slot = self.frame.begin_draw();
        DrawBegin::Wait { slot }
    }

    /// Consumes the driver's acquisition outcome. A stale swapchain cuts
    /// the draw short, advances the slot, and leaves the engine owing a
    /// recreation. A successful acquisition proceeds with the image; if the
    /// driver marked it suboptimal, the draw still proceeds but a
    /// recreation is owed before the next one.
    pub fn finish_acquire(&mut self, outcome: AcquireOutcome) -> (r: AcquireDecision)
        requires
            old(self).wf(),
            old(self).frame.phase is Waited,
        ensures
            final(self).wf(),
            final(self).config == old(self).config,
            final(self).window_size == old(self).window_size,
            final(self).draw_list == old(self).draw_list,
            match outcome {
                AcquireOutcome::Image { image_index, suboptimal } => {
                    &&& r == (AcquireDecision::Proceed { image_index })
                    &&& final(self).frame.phase == (DrawPhase::Acquired { image_index })
                    &&& final(self).needs_recreate == (old(self).needs_recreate || suboptimal)
                    &&& final(self).frame.current_frame == old(self).frame.current_frame
                },
                AcquireOutcome::OutOfDate => {
                    &&& r is ResizeNeeded
                    &&& final(self).frame.phase is Idle
                    &&& final(self).needs_recreate
                    &&& final(self).frame.current_frame as int == (old(self).frame.current_frame
                        + 1) % old(self).frame.n()
                },
            },
    {
        match outcome {
            AcquireOutcome::Image { suboptimal: true, .. } => {
                self.needs_recreate = true;
            },
            AcquireOutcome::Image { suboptimal: false, .. } => {},
            AcquireOutcome::OutOfDate => {
                self.needs_recreate = true;
            },
        }
        self.frame.finish_acquire(outcome)
    }

    /// Resets the current slot's fence, between the acquisition and the
    /// submission.
    pub fn reset_slot_fence(&mut self)
        requires
            old(self).wf(),
            old(self).frame.phase is Acquired,
        ensures
            final(self).wf(),
            final(self).frame.phase == (DrawPhase::Cleared {
                image_index: old(self).frame.phase->Acquired_image_index,
            }),
            final(self).frame.current_frame == old(self).frame.current_frame,
            final(self).config == old(self).config,
            final(self).window_size == old(self).window_size,
            final(self).needs_recreate == old(self).needs_recreate,
            final(self).draw_list == old(self).draw_list,
    {
        self.frame.reset_slot_fence();
    }

    /// Records that the shell submitted the command buffer for the
    /// acquired image: waiting on the image-available semaphore at the
    /// color-attachment-output stage, signaling the render-finished
    /// semaphore and the slot's fence.
    pub fn finish_submit(&mut self)
        requires
            old(self).wf(),
            old(self).frame.phase is Cleared,
        ensures
            final(self).wf(),
            final(self).frame.phase == (DrawPhase::Submitted {
                image_index: old(self).frame.phase->Cleared_image_index,
            }),
            final(self).frame.current_frame == old(self).frame.current_frame,
            final(self).config == old(self).config,
            final(self).window_size == old(self).window_size,
            final(self).needs_recreate == old(self).needs_recreate,
            final(self).draw_list == old(self).draw_list,
    {
        self.frame.finish_submit();
    }

    /// Consumes the driver's presentation outcome and ends the draw: the
    /// slot advances whatever the outcome was, and a stale or suboptimal
    /// swapchain leaves the engine owing a recreation rather than failing.
    pub fn finish_present(&mut self, outcome: PresentOutcome) -> (resize_needed: bool)
        requires
            old(self).wf(),
            old(self).frame.phase is Submitted,
        ensures
            final(self).wf(),
            final(self).frame.phase is Idle,
            resize_needed == present_needs_resize(outcome),
            final(self).needs_recreate == (old(self).needs_recreate || resize_needed),
            final(self).frame.current_frame as int == (old(self).frame.current_frame + 1) % old(self).frame.n(),
            final(self).config == old(self).config,
            final(self).window_size == old(self).window_size,
            final(self).draw_list == old(self).draw_list,
    {
        let resize_needed = self.frame.finish_present(outcome);
        if resize_needed {
            self.needs_recreate = true;
        }
        resize_needed
    }

    /// A swapchain recreation is owed before the next draw.
    pub fn needs_recreate(&self) -> (r: bool)
        ensures
            r == self.needs_recreate,
    {
        self.needs_recreate
    }

    /// The currently negotiated swapchain configuration.
    pub fn config(&self) -> (r: SwapchainConfig)
        ensures
            r == self.config,
    {
        self.config
    }
}

/// Resize idempotence: running the recreation path twice in a row, with no
/// draw and no resize in between, leaves exactly the state one run leaves —
/// in particular the same extent and the same image count.
pub proof fn lemma_recreate_idempotent(
    e0: Engine,
    e1: Engine,
    e2: Engine,
    support: SwapchainSupportInfo,
)
    requires
        e1 == spec_recreate(e0, support),
        e2 == spec_recreate(e1, support),
    ensures
        e2 == e1,
{
}

} // verus!
