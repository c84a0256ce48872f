//! The decisions of one rendered frame, as a state machine: the caller
//! performs each action with Vulkan and hands back what came of it.
//!
//! A frame begins with a check of the window size, waits for the fence of
//! its frame slot, acquires a swapchain image, records and submits the
//! command buffer of its slot, presents, and finally recreates the swapchain
//! when the window was resized or the swapchain became suboptimal or out of
//! date. The slot advances only when a frame reached presentation.
//!
//! The machine also counts the resources that exist once per swapchain
//! image (the images, their views, and the "render finished" semaphores),
//! which must stay equal in number for a frame to use them by image index.

use vstd::prelude::*;
use crate::vk_flags::{has_bits, FENCE_CREATE_SIGNALED};

verus! {

/// The number of frames that may be in flight at once; fences, "present
/// complete" semaphores and command buffers exist once per frame slot.
pub const MAX_FRAMES_IN_FLIGHT: usize = 2;

/// What `vkAcquireNextImageKHR` returned, among the outcomes the renderer
/// goes on with (any other error ends the program).
#[derive(Debug, Clone, Copy, PartialEq, Eq, Structural)]
pub enum AcquireResult {
    /// `VK_SUCCESS` or `VK_SUBOPTIMAL_KHR`, with the image acquired.
    Acquired { image_index: u32, suboptimal: bool },
    /// `VK_ERROR_OUT_OF_DATE_KHR`.
    OutOfDate,
    /// `VK_NOT_READY` or `VK_TIMEOUT`.
    NotReady,
}

/// What `vkQueuePresentKHR` returned, among the outcomes the renderer goes
/// on with (any other error ends the program).
#[derive(Debug, Clone, Copy, PartialEq, Eq, Structural)]
pub enum PresentResult {
    /// `VK_SUCCESS` or `VK_SUBOPTIMAL_KHR`.
    Presented { suboptimal: bool },
    /// `VK_ERROR_OUT_OF_DATE_KHR`.
    OutOfDate,
}

/// Where the current frame stands.
#[derive(Debug, Clone, Copy, PartialEq, Eq, Structural)]
pub enum FramePhase {
    /// No frame is under way.
    Idle,
    /// Waiting for the fence of the current frame slot.
    AwaitingFence,
    /// Waiting for a swapchain image; `needs_recreate` remembers a resize.
    AwaitingImage { needs_recreate: bool },
    /// The command buffer was submitted and the image handed to presentation.
    AwaitingPresent { needs_recreate: bool, image_index: u32 },
}

/// What happened since the last action.
#[derive(Debug, Clone, Copy, PartialEq, Eq, Structural)]
pub enum FrameEvent {
    /// A new frame is due; the window has this size.
    Begin { window_width: u32, window_height: u32 },
    /// The fence of the frame slot was signaled; `was_resized` is the resize
    /// flag of the window, which the caller has just cleared.
    FenceSignaled { was_resized: bool },
    /// The result of acquiring the next swapchain image.
    ImageAcquired { acquire_result: AcquireResult },
    /// The result of presenting the image.
    Presented { present_result: PresentResult },
}

/// What the caller is to do next.
#[derive(Debug, Clone, Copy, PartialEq, Eq, Structural)]
pub enum FrameAction {
    /// The window has no area: set its resize flag; the frame ends.
    MarkResized,
    /// Wait for the fence of this frame slot, then clear and report the
    /// window's resize flag.
    WaitForFence { frame_index: usize },
    /// Acquire the next swapchain image, signaling this slot's semaphore.
    AcquireImage { frame_index: usize },
    /// Reset this slot's fence, record and submit its command buffer for the
    /// image, then present the image and report the result.
    SubmitAndPresent { frame_index: usize, image_index: u32 },
    /// Recreate the swapchain; the frame ends.
    RecreateSwapchain,
    /// The frame ends with nothing more to do.
    EndFrame,
}

/// The state of the frame loop: the current frame slot, the numbers of
/// swapchain images, of their views and of "render finished" semaphores,
/// and the phase of the current frame.
#[derive(Debug, Clone, Copy, PartialEq, Eq, Structural)]
pub struct FrameMachine {
    pub frame_index: usize,
    pub image_count: usize,
    pub image_view_count: usize,
    pub render_semaphore_count: usize,
    pub phase: FramePhase,
}

impl FrameMachine {
    /// The frame slot is one that exists, and every swapchain image has one
    /// view and one "render finished" semaphore.
    pub open spec fn wf(self) -> bool {
        &&& self.frame_index < MAX_FRAMES_IN_FLIGHT
        &&& self.image_view_count == self.image_count
        &&& self.render_semaphore_count == self.image_count
    }

    /// The event can follow the current phase, and an acquired image is one
    /// of the swapchain's images. (The renderer stops on any other outcome:
    /// Vulkan errors other than the ones modelled, and image indices past the
    /// last image, both end the program.)
    pub open spec fn accepts(self, event: FrameEvent) -> bool {
        match (self.phase, event) {
            (FramePhase::Idle, FrameEvent::Begin { .. }) => true,
            (FramePhase::AwaitingFence, FrameEvent::FenceSignaled { .. }) => true,
            (FramePhase::AwaitingImage { .. }, FrameEvent::ImageAcquired { acquire_result }) => {
                acquire_result matches AcquireResult::Acquired { image_index, .. } ==> (image_index as int)
                    < self.image_count
            },
            (FramePhase::AwaitingPresent { .. }, FrameEvent::Presented { .. }) => true,
            _ => false,
        }
    }

    /// The next state and the action for an event that the machine accepts.
    pub open spec fn next(self, event: FrameEvent) -> (FrameMachine, FrameAction) {
        let idle = FrameMachine { phase: FramePhase::Idle, ..self };
        match event {
            FrameEvent::Begin { window_width, window_height } => {
                if window_width == 0 || window_height == 0 {
                    (idle, FrameAction::MarkResized)
                } else {
                    (
                        FrameMachine { phase: FramePhase::AwaitingFence, ..self },
                        FrameAction::WaitForFence { frame_index: self.frame_index },
                    )
                }
            },
            FrameEvent::FenceSignaled { was_resized } => (
                FrameMachine { phase: FramePhase::AwaitingImage { needs_recreate: was_resized }, ..self },
                FrameAction::AcquireImage { frame_index: self.frame_index },
            ),
            FrameEvent::ImageAcquired { acquire_result } => {
                let needs_recreate = self.phase->AwaitingImage_needs_recreate;
                match acquire_result {
                    AcquireResult::Acquired { image_index, suboptimal } => (
                        FrameMachine {
                            phase: FramePhase::AwaitingPresent {
                                needs_recreate: needs_recreate || suboptimal,
                                image_index,
                            },
                            ..self
                        },
                        FrameAction::SubmitAndPresent { frame_index: self.frame_index, image_index },
                    ),
                    AcquireResult::OutOfDate => (idle, FrameAction::RecreateSwapchain),
                    AcquireResult::NotReady => (idle, FrameAction::EndFrame),
                }
            },
            FrameEvent::Presented { present_result } => {
                let needs_recreate = self.phase->AwaitingPresent_needs_recreate;
                let advanced = FrameMachine {
                    frame_index: ((self.frame_index + 1) % (MAX_FRAMES_IN_FLIGHT as int)) as usize,
                    phase: FramePhase::Idle,
                    ..self
                };
                match present_result {
                    PresentResult::Presented { suboptimal } => (
                        advanced,
                        if needs_recreate || suboptimal {
                            FrameAction::RecreateSwapchain
                        } else {
                            FrameAction::EndFrame
                        },
                    ),
                    PresentResult::OutOfDate => (advanced, FrameAction::RecreateSwapchain),
                }
            },
        }
    }

    /// The state of a renderer that has just been created.
    pub open spec fn spec_new(image_count: usize) -> FrameMachine {
        FrameMachine {
            frame_index: 0,
            image_count,
            image_view_count: image_count,
            render_semaphore_count: image_count,
            phase: FramePhase::Idle,
        }
    }

    /// The state of a renderer that has just been created: frame slot 0,
    /// `image_count` swapchain images, each with its view and its "render
    /// finished" semaphore, no frame under way.
    pub fn new(image_count: usize) -> (r: FrameMachine)
        ensures
            r == FrameMachine::spec_new(image_count),
            r.wf(),
    {
        FrameMachine {
            frame_index: 0,
            image_count,
            image_view_count: image_count,
            render_semaphore_count: image_count,
            phase: FramePhase::Idle,
        }
    }

    /// Tells whether the machine accepts the event (see `accepts`).
    pub fn accepts_event(&self, event: &FrameEvent) -> (r: bool)
        ensures
            r == self.accepts(*event),
    {
        match (self.phase, event) {
            (FramePhase::Idle, FrameEvent::Begin { .. }) => true,
            (FramePhase::AwaitingFence, FrameEvent::FenceSignaled { .. }) => true,
            (FramePhase::AwaitingImage { .. }, FrameEvent::ImageAcquired { acquire_result }) => {
                match acquire_result {
                    AcquireResult::Acquired { image_index, .. } => (*image_index as usize) < self.image_count,
                    _ => true,
                }
            },
            (FramePhase::AwaitingPresent { .. }, FrameEvent::Presented { .. }) => true,
            _ => false,
        }
    }

    /// Takes the frame one step: from the event that the last action
    /// produced to the next action (see `next`).
    pub fn step(&mut self, event: FrameEvent) -> (r: FrameAction)
        requires
            old(self).wf(),
            old(self).accepts(event),
        ensures
            (*final(self), r) == old(self).next(event),
            final(self).wf(),
    {
        let frame_index = self.frame_index;
        match event {
            FrameEvent::Begin { window_width, window_height } => {
                if window_width == 0 || window_height == 0 {
                    self.phase = FramePhase::Idle;
                    FrameAction::MarkResized
                } else {
                    self.phase = FramePhase::AwaitingFence;
                    FrameAction::WaitForFence { frame_index }
                }
            },
            FrameEvent::FenceSignaled { was_resized } => {
                self.phase = FramePhase::AwaitingImage { needs_recreate: was_resized };
                FrameAction::AcquireImage { frame_index }
            },
            FrameEvent::ImageAcquired { acquire_result } => {
                let needs_recreate = match self.phase {
                    FramePhase::AwaitingImage { needs_recreate } => needs_recreate,
                    _ => false,
                };
                match acquire_result {
                    AcquireResult::Acquired { image_index, suboptimal } => {
                        self.phase = FramePhase::AwaitingPresent {
                            needs_recreate: needs_recreate || suboptimal,
                            image_index,
                        };
                        FrameAction::SubmitAndPresent { frame_index, image_index }
                    },
                    AcquireResult::OutOfDate => {
                        self.phase = FramePhase::Idle;
                        FrameAction::RecreateSwapchain
                    },
                    AcquireResult::NotReady => {
                        self.phase = FramePhase::Idle;
                        FrameAction::EndFrame
                    },
                }
            },
            FrameEvent::Presented { present_result } => {
                let needs_recreate = match self.phase {
                    FramePhase::AwaitingPresent { needs_recreate, .. } => needs_recreate,
                    _ => false,
                };
                self.frame_index = (frame_index + 1) % MAX_FRAMES_IN_FLIGHT;
                self.phase = FramePhase::Idle;
                match present_result {
                    PresentResult::Presented { suboptimal } => {
                        if needs_recreate || suboptimal {
                            FrameAction::RecreateSwapchain
                        } else {
                            FrameAction::EndFrame
                        }
                    },
                    PresentResult::OutOfDate => FrameAction::RecreateSwapchain,
                }
            },
        }
    }

    /// The state after the swapchain was recreated with `image_count`
    /// images: the old views are destroyed and one view is created per new
    /// image; the "render finished" semaphores are destroyed and created
    /// anew, one per image, exactly when their number differs from the new
    /// number of images, and kept otherwise.
    pub open spec fn after_recreate(self, image_count: usize) -> FrameMachine {
        FrameMachine {
            image_count,
            image_view_count: image_count,
            render_semaphore_count: if self.render_semaphore_count != image_count {
                image_count
            } else {
                self.render_semaphore_count
            },
            ..self
        }
    }

    /// Records a swapchain recreation with `image_count` images (see
    /// `after_recreate`), and tells whether the "render finished" semaphores
    /// must be destroyed and created anew.
    pub fn swapchain_recreated(&mut self, image_count: usize) -> (r: bool)
        requires
            old(self).wf(),
        ensures
            *final(self) == old(self).after_recreate(image_count),
            r == (old(self).render_semaphore_count != image_count),
            final(self).wf(),
    {
        let renew_semaphores = self.render_semaphore_count != image_count;
        self.image_count = image_count;
        self.image_view_count = image_count;
        if renew_semaphores {
            self.render_semaphore_count = image_count;
        }
        renew_semaphores
    }
}

/// The action ends the current frame: nothing more is asked of the caller
/// before the next `Begin`.
pub open spec fn ends_frame(a: FrameAction) -> bool {
    match a {
        FrameAction::WaitForFence { .. } | FrameAction::AcquireImage { .. }
        | FrameAction::SubmitAndPresent { .. } => false,
        _ => true,
    }
}

/// A frame is under way exactly until an action ends it, and a step keeps
/// the machine well formed and the per-image resources as they are.
pub proof fn lemma_frame_ends_when_idle(s: FrameMachine, e: FrameEvent)
    requires
        s.wf(),
        s.accepts(e),
    ensures
        ends_frame(s.next(e).1) <==> s.next(e).0.phase == FramePhase::Idle,
        s.next(e).0.wf(),
        s.next(e).0.image_count == s.image_count,
        s.next(e).0.image_view_count == s.image_view_count,
        s.next(e).0.render_semaphore_count == s.render_semaphore_count,
{
}

/// The frame slot moves on, to the next slot in turn, exactly when a frame
/// reached presentation (whether or not the swapchain then needs
/// recreating); every other event leaves it where it is.
pub proof fn lemma_frame_slot_advances_on_present(s: FrameMachine, e: FrameEvent)
    requires
        s.wf(),
        s.accepts(e),
    ensures
        s.next(e).0.frame_index != s.frame_index <==> e is Presented,
        s.next(e).0.frame_index != s.frame_index ==> s.next(e).0.frame_index == (s.frame_index + 1)
            % (MAX_FRAMES_IN_FLIGHT as int),
{
}

/// A command buffer is submitted (and the slot's fence reset) only after an
/// image was acquired, only for the slot whose fence was waited for, and
/// only for an image that has a view and a "render finished" semaphore.
pub proof fn lemma_submit_only_acquired_image(s: FrameMachine, e: FrameEvent)
    requires
        s.wf(),
        s.accepts(e),
        s.next(e).1 is SubmitAndPresent,
    ensures
        e matches FrameEvent::ImageAcquired { acquire_result } && acquire_result is Acquired,
        s.next(e).1->SubmitAndPresent_frame_index == s.frame_index,
        s.next(e).1->SubmitAndPresent_frame_index < MAX_FRAMES_IN_FLIGHT,
        (s.next(e).1->SubmitAndPresent_image_index as int) < s.image_count,
        (s.next(e).1->SubmitAndPresent_image_index as int) < s.image_view_count,
        (s.next(e).1->SubmitAndPresent_image_index as int) < s.render_semaphore_count,
{
}

/// The swapchain is recreated at the end of a presented frame exactly when
/// the window was resized, the acquired image was suboptimal, or the
/// presentation was suboptimal or out of date.
pub proof fn lemma_recreate_exactly_when_needed(
    s: FrameMachine,
    was_resized: bool,
    image_index: u32,
    suboptimal: bool,
    present: PresentResult,
)
    requires
        s.wf(),
        s.phase == FramePhase::AwaitingFence,
        (image_index as int) < s.image_count,
    ensures
        ({
            let s1 = s.next(FrameEvent::FenceSignaled { was_resized }).0;
            let e2 = FrameEvent::ImageAcquired {
                acquire_result: AcquireResult::Acquired { image_index, suboptimal },
            };
            let s2 = s1.next(e2).0;
            let e3 = FrameEvent::Presented { present_result: present };
            &&& s1.accepts(e2)
            &&& s2.accepts(e3)
            &&& (s2.next(e3).1 == FrameAction::RecreateSwapchain <==> (was_resized || suboptimal
                || present == PresentResult::Presented { suboptimal: true } || present
                == PresentResult::OutOfDate))
            &&& (s2.next(e3).1 != FrameAction::RecreateSwapchain ==> s2.next(e3).1 == FrameAction::EndFrame)
        }),
{
}

/// A frame that begins on a window with an area, acquires image `i` and
/// reaches presentation (whatever the presentation reported) waits for the
/// fence of its slot `f`, acquires with that slot's semaphore, submits that
/// slot's command buffer for image `i`, and ends with the slot advanced to
/// the next one in turn and no frame under way; the per-image resources are
/// left as they were.
pub proof fn lemma_presented_frame(
    s: FrameMachine,
    window_width: u32,
    window_height: u32,
    was_resized: bool,
    image_index: u32,
    suboptimal: bool,
    present: PresentResult,
)
    requires
        s.wf(),
        s.phase == FramePhase::Idle,
        window_width > 0,
        window_height > 0,
        (image_index as int) < s.image_count,
    ensures
        ({
            let f = s.frame_index;
            let e0 = FrameEvent::Begin { window_width, window_height };
            let e1 = FrameEvent::FenceSignaled { was_resized };
            let e2 = FrameEvent::ImageAcquired {
                acquire_result: AcquireResult::Acquired { image_index, suboptimal },
            };
            let e3 = FrameEvent::Presented { present_result: present };
            let s1 = s.next(e0).0;
            let s2 = s1.next(e1).0;
            let s3 = s2.next(e2).0;
            let s4 = s3.next(e3).0;
            &&& s.accepts(e0) && s1.accepts(e1) && s2.accepts(e2) && s3.accepts(e3)
            &&& s.next(e0).1 == (FrameAction::WaitForFence { frame_index: f })
            &&& s1.next(e1).1 == (FrameAction::AcquireImage { frame_index: f })
            &&& s2.next(e2).1 == (FrameAction::SubmitAndPresent { frame_index: f, image_index })
            &&& ends_frame(s3.next(e3).1)
            &&& s4.frame_index == (f + 1) % (MAX_FRAMES_IN_FLIGHT as int)
            &&& s4.phase == FramePhase::Idle
            &&& s4.image_count == s.image_count
            &&& s4.image_view_count == s.image_view_count
            &&& s4.render_semaphore_count == s.render_semaphore_count
            &&& s4.wf()
        }),
{
}

/// A recreation of the swapchain keeps one view and one "render finished"
/// semaphore per image, whatever the old and new numbers of images.
pub proof fn lemma_recreate_keeps_one_per_image(s: FrameMachine, image_count: usize)
    requires
        s.wf(),
    ensures
        s.after_recreate(image_count).wf(),
        s.after_recreate(image_count).image_count == image_count,
        s.after_recreate(image_count).frame_index == s.frame_index,
{
}

/// The synchronization objects of the frame loop: a "present complete"
/// semaphore and a fence per frame slot, a "render finished" semaphore per
/// swapchain image, and the flags the fences are created with.
#[derive(Debug, Clone, Copy, PartialEq, Eq, Structural)]
pub struct FrameSyncPlan {
    pub present_complete_semaphore_count: usize,
    pub render_finished_semaphore_count: usize,
    pub fence_count: usize,
    pub fence_flags: u32,
}

/// The synchronization objects for a swapchain of `image_count` images; the
/// fences are created signaled, so that the first wait of each frame slot
/// returns at once.
pub open spec fn frame_sync(image_count: usize) -> FrameSyncPlan {
    FrameSyncPlan {
        present_complete_semaphore_count: MAX_FRAMES_IN_FLIGHT,
        render_finished_semaphore_count: image_count,
        fence_count: MAX_FRAMES_IN_FLIGHT,
        fence_flags: FENCE_CREATE_SIGNALED,
    }
}

/// Plans the synchronization objects (see `frame_sync`).
pub fn vk_create_sync_objects(image_count: usize) -> (r: FrameSyncPlan)
    ensures
        r == frame_sync(image_count),
{
    FrameSyncPlan {
        present_complete_semaphore_count: MAX_FRAMES_IN_FLIGHT,
        render_finished_semaphore_count: image_count,
        fence_count: MAX_FRAMES_IN_FLIGHT,
        fence_flags: FENCE_CREATE_SIGNALED,
    }
}

/// Every fence wait of the frame loop returns: each slot's fence is created
/// signaled, the first frame waits on a slot that has a fence, and a fence
/// is reset only by the action that also submits the work which signals it
/// again. The synchronization objects match a fresh machine: one semaphore
/// and one fence per slot, one "render finished" semaphore per image.
pub proof fn lemma_fence_waits_return(image_count: usize, e: FrameEvent, s: FrameMachine)
    requires
        s.wf(),
        s.accepts(e),
    ensures
        has_bits(frame_sync(image_count).fence_flags, FENCE_CREATE_SIGNALED),
        frame_sync(image_count).fence_count == MAX_FRAMES_IN_FLIGHT,
        frame_sync(image_count).present_complete_semaphore_count == MAX_FRAMES_IN_FLIGHT,
        frame_sync(image_count).render_finished_semaphore_count == FrameMachine::spec_new(
            image_count,
        ).render_semaphore_count,
        FrameMachine::spec_new(image_count).next(
            FrameEvent::Begin { window_width: 1, window_height: 1 },
        ).1 == (FrameAction::WaitForFence { frame_index: 0 }),
        s.next(e).1 matches FrameAction::WaitForFence { frame_index } ==> frame_index < frame_sync(
            image_count,
        ).fence_count,
        s.next(e).1 matches FrameAction::SubmitAndPresent { frame_index, .. } ==> frame_index
            < frame_sync(image_count).fence_count,
{
    assert(FENCE_CREATE_SIGNALED & FENCE_CREATE_SIGNALED == FENCE_CREATE_SIGNALED) by (bit_vector);
}

} // verus!
