use vstd::prelude::*;

verus! {

/// The synchronization objects of the frame loop, by raw Vulkan handle:
/// one semaphore signalled when a swapchain image has been acquired, one
/// semaphore per swapchain image signalled when its rendering is done,
/// and the fence that keeps one frame in flight.
///
/// A present operation's wait on its semaphore is not covered by the
/// in-flight fence, so each swapchain image has a semaphore of its own:
/// a single one could be signalled again while an earlier present still
/// waits on it.
pub struct FrameSync {
    pub image_available: u64,
    pub render_finished: Vec<u64>,
    pub in_flight: u64,
}

/// The first half of a frame: wait for the previous frame's fence, reset
/// it, then acquire a swapchain image that signals `acquire_signal`.
#[derive(Clone, Copy, Debug)]
pub struct FrameStart {
    pub fence: u64,
    pub acquire_signal: u64,
}

/// The queue submission of a frame's command buffer.
#[derive(Clone, Copy, Debug)]
pub struct Submission {
    pub wait_semaphore: u64,
    /// Raw `VkPipelineStageFlags` at which the wait applies.
    pub wait_stage: u32,
    pub signal_semaphore: u64,
    /// Fence signalled when the submission completes.
    pub fence: u64,
}

/// The presentation of the rendered image.
#[derive(Clone, Copy, Debug)]
pub struct Presentation {
    pub wait_semaphore: u64,
    pub image_index: u32,
}

/// The second half of a frame, once the image is acquired and the
/// command buffer recorded for it.
#[derive(Clone, Copy, Debug)]
pub struct FrameFinish {
    pub submission: Submission,
    pub presentation: Presentation,
}

impl FrameSync {
    /// Gathers the objects created for a swapchain of
    /// `render_finished.len()` images.
    pub fn new(image_available: u64, render_finished: Vec<u64>, in_flight: u64) -> (sync: Self)
        ensures
            sync.image_available == image_available,
            sync.render_finished@ == render_finished@,
            sync.in_flight == in_flight,
    {
        FrameSync { image_available, render_finished, in_flight }
    }

    pub open spec fn spec_start(&self) -> FrameStart {
        FrameStart { fence: self.in_flight, acquire_signal: self.image_available }
    }

    pub open spec fn spec_finish(&self, image_index: u32, wait_stage: u32) -> FrameFinish
        recommends
            image_index < self.render_finished@.len(),
    {
        let signal = self.render_finished@[image_index as int];
        FrameFinish {
            submission: Submission {
                wait_semaphore: self.image_available,
                wait_stage,
                signal_semaphore: signal,
                fence: self.in_flight,
            },
            presentation: Presentation { wait_semaphore: signal, image_index },
        }
    }

    /// The objects the first half of a frame uses.
    pub fn start(&self) -> (start: FrameStart)
        ensures
            start == self.spec_start(),
    {
        FrameStart { fence: self.in_flight, acquire_signal: self.image_available }
    }

    /// How the frame rendered into the acquired image `image_index` is
    /// submitted and presented.
    pub fn finish(&self, image_index: u32, wait_stage: u32) -> (finish: FrameFinish)
        requires
            image_index < self.render_finished@.len(),
        ensures
            finish == self.spec_finish(image_index, wait_stage),
            finish.submission.wait_semaphore == self.image_available,
            finish.submission.wait_stage == wait_stage,
            finish.submission.signal_semaphore == self.render_finished@[image_index as int],
            finish.submission.fence == self.in_flight,
            finish.presentation.wait_semaphore == self.render_finished@[image_index as int],
            finish.presentation.image_index == image_index,
    {
        let signal = self.render_finished[image_index as usize];
        FrameFinish {
            submission: Submission {
                wait_semaphore: self.image_available,
                wait_stage,
                signal_semaphore: signal,
                fence: self.in_flight,
            },
            presentation: Presentation { wait_semaphore: signal, image_index },
        }
    }
}

/// Within one frame the semaphores chain: the submission waits on the
/// semaphore the acquire signals, the presentation waits on the semaphore
/// the submission signals, and the submission signals the very fence the
/// next frame waits for and resets.
pub proof fn frame_semaphores_chain(sync: FrameSync, image_index: u32, wait_stage: u32)
    requires
        image_index < sync.render_finished@.len(),
    ensures
        sync.spec_finish(image_index, wait_stage).submission.wait_semaphore
            == sync.spec_start().acquire_signal,
        sync.spec_finish(image_index, wait_stage).presentation.wait_semaphore == sync.spec_finish(
            image_index,
            wait_stage,
        ).submission.signal_semaphore,
        sync.spec_finish(image_index, wait_stage).submission.fence == sync.spec_start().fence,
        sync.spec_finish(image_index, wait_stage).presentation.image_index == image_index,
{
}

/// A frame's submission waits on the acquire semaphore at exactly the stage
/// it is given, signals the acquired image's own render-finished semaphore
/// and the in-flight fence, and the image presented is the one acquired.
pub proof fn finish_uses_given_stage_and_image(sync: FrameSync, image_index: u32, wait_stage: u32)
    requires
        image_index < sync.render_finished@.len(),
    ensures
        sync.spec_finish(image_index, wait_stage).submission.wait_stage == wait_stage,
        sync.spec_finish(image_index, wait_stage).submission.wait_semaphore == sync.image_available,
        sync.spec_finish(image_index, wait_stage).submission.signal_semaphore
            == sync.render_finished@[image_index as int],
        sync.spec_finish(image_index, wait_stage).submission.fence == sync.in_flight,
        sync.spec_finish(image_index, wait_stage).presentation.image_index == image_index,
        sync.spec_start().fence == sync.in_flight,
        sync.spec_start().acquire_signal == sync.image_available,
{
}

/// Frames rendered into two different swapchain images signal, and
/// present after, two different semaphores, provided the render-finished
/// semaphores are distinct objects.
pub proof fn distinct_images_use_distinct_semaphores(
    sync: FrameSync,
    first: u32,
    second: u32,
    wait_stage: u32,
)
    requires
        first < sync.render_finished@.len(),
        second < sync.render_finished@.len(),
        first != second,
        forall|i: int, j: int|
            0 <= i < sync.render_finished@.len() && 0 <= j < sync.render_finished@.len() && i != j
                ==> sync.render_finished@[i] != sync.render_finished@[j],
    ensures
        sync.spec_finish(first, wait_stage).submission.signal_semaphore != sync.spec_finish(
            second,
            wait_stage,
        ).submission.signal_semaphore,
{
    assert(sync.render_finished@[first as int] != sync.render_finished@[second as int]);
}

} // verus!
