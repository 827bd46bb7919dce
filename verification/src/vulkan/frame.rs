//! Frame pacing: which image may be rendered to, and when.
//!
//! The pacer decides; the caller acts. Each call of `step` takes what just
//! happened on the device and answers with what to do next, so that the
//! caller's loop holds no rule of its own.

use vstd::prelude::*;

verus! {

/// Number of frames that the host may prepare while the device still works
/// on earlier ones.
pub const FRAMES_PROCESSING_CONCURRENCY: usize = 2;

/// The fence handle that stands for no fence.
pub const NULL_FENCE: u64 = 0;

/// The result code of a present that went through but no longer matches
/// the surface.
pub const SUBOPTIMAL_KHR: i32 = 1000001003;

/// The result code of a swapchain that the surface has outgrown.
pub const ERROR_OUT_OF_DATE_KHR: i32 = -1000001004;

/// Where a frame stands. A frame starts idle, acquires an image (waiting
/// for its slot's fence, perhaps resizing, asking for the image, perhaps
/// waiting for the image's fence), is rendered, is presented, and is idle
/// again.
#[derive(Clone, Copy, Debug, PartialEq, Eq, Structural)]
pub enum FramePhase {
    Idle,
    AwaitingFrameFence,
    Resizing,
    AwaitingImage,
    AwaitingImageFence,
    Rendering,
    Presenting,
}

/// What happened since the last step.
#[derive(Clone, Copy, Debug, PartialEq, Eq, Structural)]
pub enum FrameEvent {
    /// The caller wants to start a frame.
    Prepare,
    /// The fence that the pacer asked to wait for has signaled.
    FenceSignaled,
    /// The swapchain was made anew and has this many images.
    Resized { images: usize },
    /// The surface answered the request for the next image with this result
    /// code and, where the code is no error, this image index.
    Acquired { code: i32, image: u32 },
    /// The caller has recorded the frame and wants it shown.
    Present,
    /// The present queue answered with this result code.
    Presented { code: i32 },
}

/// What the caller has to do next.
#[derive(Clone, Copy, Debug, PartialEq, Eq, Structural)]
pub enum FrameAction {
    /// Wait until this fence signals, then report `FenceSignaled`.
    WaitForFence { fence: u64 },
    /// Idle the device, make the swapchain and what hangs on it anew, then
    /// report `Resized`.
    Resize,
    /// Ask the surface for the next image, signaling the image-available
    /// semaphore of this frame slot, then report `Acquired`.
    AcquireImage { frame: usize },
    /// Begin the render pass on this image; the frame is now being rendered.
    Render { chain: usize },
    /// Submit the commands of this image, waiting on the image-available
    /// semaphore of this frame slot and signaling its render-finished
    /// semaphore and this fence, and present the image; then report
    /// `Presented`.
    Submit { chain: usize, frame: usize, fence: u64 },
    /// The frame is presented; nothing is owed until the next `Prepare`.
    Rest,
    /// The device failed with this result code: the process must not go on.
    Fatal { code: i32 },
    /// The event does not fit the phase: nothing was changed.
    Refused,
}

/// The pacer as a value.
pub ghost struct Pacing {
    pub phase: FramePhase,
    pub frame: nat,
    pub chain: nat,
    pub need_resize: bool,
    pub fences: Seq<u64>,
    pub images: Seq<u64>,
}

/// The fences of the images after a resize to `count` images: the images
/// that stay keep their fences, new ones have none.
pub open spec fn resized(images: Seq<u64>, count: nat) -> Seq<u64> {
    Seq::new(
        count,
        |i: int|
            if i < images.len() {
                images[i]
            } else {
                NULL_FENCE
            },
    )
}

impl Pacing {
    /// One fence per frame slot, the slot in range, and, from the moment an
    /// image is chosen, its index in range.
    pub open spec fn wf(self) -> bool {
        &&& self.fences.len() == FRAMES_PROCESSING_CONCURRENCY
        &&& self.frame < FRAMES_PROCESSING_CONCURRENCY
        &&& (self.phase == FramePhase::AwaitingImageFence || self.phase == FramePhase::Rendering
            || self.phase == FramePhase::Presenting) ==> self.chain < self.images.len()
        &&& (self.phase == FramePhase::Rendering || self.phase == FramePhase::Presenting)
            ==> self.images[self.chain as int] == self.fences[self.frame as int]
        &&& self.phase == FramePhase::AwaitingImageFence ==> self.images[self.chain as int]
            != NULL_FENCE
    }

    /// True while an image is being acquired.
    pub open spec fn is_acquiring(self) -> bool {
        self.phase == FramePhase::AwaitingFrameFence || self.phase == FramePhase::Resizing
            || self.phase == FramePhase::AwaitingImage || self.phase
            == FramePhase::AwaitingImageFence
    }

    /// The fence of the current frame slot.
    pub open spec fn frame_fence(self) -> u64 {
        self.fences[self.frame as int]
    }

    /// The pacer with the current frame slot's fence guarding image `chain`,
    /// rendering to it.
    pub open spec fn render(self, chain: nat) -> Pacing {
        Pacing {
            phase: FramePhase::Rendering,
            chain,
            images: self.images.update(chain as int, self.frame_fence()),
            ..self
        }
    }

    /// Pacer and action after one event.
    pub open spec fn step(self, event: FrameEvent) -> (Pacing, FrameAction) {
        match (self.phase, event) {
            (FramePhase::Idle, FrameEvent::Prepare) => (
                Pacing { phase: FramePhase::AwaitingFrameFence, ..self },
                FrameAction::WaitForFence { fence: self.frame_fence() },
            ),
            (FramePhase::AwaitingFrameFence, FrameEvent::FenceSignaled) => if self.need_resize {
                (
                    Pacing { phase: FramePhase::Resizing, need_resize: false, ..self },
                    FrameAction::Resize,
                )
            } else {
                (
                    Pacing { phase: FramePhase::AwaitingImage, ..self },
                    FrameAction::AcquireImage { frame: self.frame as usize },
                )
            },
            (FramePhase::Resizing, FrameEvent::Resized { images }) => (
                Pacing {
                    phase: FramePhase::AwaitingFrameFence,
                    images: resized(self.images, images as nat),
                    ..self
                },
                FrameAction::WaitForFence { fence: self.frame_fence() },
            ),
            (FramePhase::AwaitingImage, FrameEvent::Acquired { code, image }) => if code
                == ERROR_OUT_OF_DATE_KHR {
                (Pacing { phase: FramePhase::Resizing, ..self }, FrameAction::Resize)
            } else if code < 0 {
                (self, FrameAction::Fatal { code })
            } else if image >= self.images.len() {
                (self, FrameAction::Fatal { code })
            } else if self.images[image as int] != NULL_FENCE {
                (
                    Pacing { phase: FramePhase::AwaitingImageFence, chain: image as nat, ..self },
                    FrameAction::WaitForFence { fence: self.images[image as int] },
                )
            } else {
                (self.render(image as nat), FrameAction::Render { chain: image as usize })
            },
            (FramePhase::AwaitingImageFence, FrameEvent::FenceSignaled) => (
                self.render(self.chain),
                FrameAction::Render { chain: self.chain as usize },
            ),
            (FramePhase::Rendering, FrameEvent::Present) => (
                Pacing { phase: FramePhase::Presenting, ..self },
                FrameAction::Submit {
                    chain: self.chain as usize,
                    frame: self.frame as usize,
                    fence: self.images[self.chain as int],
                },
            ),
            (FramePhase::Presenting, FrameEvent::Presented { code }) => if code < 0 && code
                != ERROR_OUT_OF_DATE_KHR {
                (self, FrameAction::Fatal { code })
            } else {
                (
                    Pacing {
                        phase: FramePhase::Idle,
                        frame: (self.frame + 1) % (FRAMES_PROCESSING_CONCURRENCY as nat),
                        need_resize: self.need_resize || code == SUBOPTIMAL_KHR || code
                            == ERROR_OUT_OF_DATE_KHR,
                        ..self
                    },
                    FrameAction::Rest,
                )
            },
            _ => (self, FrameAction::Refused),
        }
    }
}

/// Decides, frame by frame, which image may be rendered to and when.
pub struct FramePacer {
    phase: FramePhase,
    frame: usize,
    chain: usize,
    need_resize: bool,
    fences: Vec<u64>,
    images: Vec<u64>,
}

impl View for FramePacer {
    type V = Pacing;

    closed spec fn view(&self) -> Pacing {
        Pacing {
            phase: self.phase,
            frame: self.frame as nat,
            chain: self.chain as nat,
            need_resize: self.need_resize,
            fences: self.fences@,
            images: self.images@,
        }
    }
}

impl FramePacer {
    /// The pacer behind it is well formed.
    pub open spec fn wf(&self) -> bool {
        self@.wf()
    }

    /// An idle pacer at frame slot zero, over the fences of the frame slots,
    /// for a swapchain of `images` images that no fence guards yet.
    pub fn create(fences: Vec<u64>, images: usize) -> (pacer: FramePacer)
        requires
            fences@.len() == FRAMES_PROCESSING_CONCURRENCY,
        ensures
            pacer.wf(),
            pacer@ == (Pacing {
                phase: FramePhase::Idle,
                frame: 0,
                chain: 0,
                need_resize: false,
                fences: fences@,
                images: Seq::new(images as nat, |i: int| NULL_FENCE),
            }),
    {
        let mut guards: Vec<u64> = Vec::new();
        let mut k: usize = 0;
        while k < images
            invariant
                k <= images,
                guards@.len() == k,
                forall|i: int| 0 <= i < k ==> guards@[i] == NULL_FENCE,
            decreases images - k,
        {
            guards.push(NULL_FENCE);
            k = k + 1;
        }
        assert(guards@ =~= Seq::new(images as nat, |i: int| NULL_FENCE));
        FramePacer {
            phase: FramePhase::Idle,
            frame: 0,
            chain: 0,
            need_resize: false,
            fences,
            images: guards,
        }
    }

    /// Where the frame stands.
    pub fn phase(&self) -> (phase: FramePhase)
        ensures
            phase == self@.phase,
    {
        self.phase
    }

    /// The frame slot that is writable now.
    pub fn frame(&self) -> (frame: usize)
        ensures
            frame == self@.frame,
    {
        self.frame
    }

    /// The image chosen for the frame.
    pub fn chain(&self) -> (chain: usize)
        ensures
            chain == self@.chain,
    {
        self.chain
    }

    /// True when the swapchain is to be made anew at the next acquire.
    pub fn needs_resize(&self) -> (needed: bool)
        ensures
            needed == self@.need_resize,
    {
        self.need_resize
    }

    /// Number of images that the pacer tracks.
    pub fn images(&self) -> (count: usize)
        ensures
            count == self@.images.len(),
    {
        self.images.len()
    }

    /// Sets the length of the image fences to `count`, keeping the fences of
    /// the images that stay.
    fn resize_images(&mut self, count: usize)
        ensures
            final(self).images@ == resized(old(self).images@, count as nat),
            final(self).phase == old(self).phase,
            final(self).frame == old(self).frame,
            final(self).chain == old(self).chain,
            final(self).need_resize == old(self).need_resize,
            final(self).fences == old(self).fences,
    {
        let ghost before = self.images@;
        if count <= self.images.len() {
            self.images.truncate(count);
        } else {
            while self.images.len() < count
                invariant
                    before.len() <= self.images@.len() <= count,
                    self.phase == old(self).phase,
                    self.frame == old(self).frame,
                    self.chain == old(self).chain,
                    self.need_resize == old(self).need_resize,
                    self.fences == old(self).fences,
                    forall|i: int| 0 <= i < before.len() ==> self.images@[i] == before[i],
                    forall|i: int| before.len() <= i < self.images@.len() ==> self.images@[i] == NULL_FENCE,
                decreases count - self.images@.len(),
            {
                self.images.push(NULL_FENCE);
            }
        }
        assert(self.images@ =~= resized(before, count as nat));
    }

    /// Takes in what happened and answers with what to do next.
    pub fn step(&mut self, event: FrameEvent) -> (action: FrameAction)
        requires
            old(self).wf(),
        ensures
            final(self).wf(),
            (final(self)@, action) == old(self)@.step(event),
    {
        match (self.phase, event) {
            (FramePhase::Idle, FrameEvent::Prepare) => {
                self.phase = FramePhase::AwaitingFrameFence;
                FrameAction::WaitForFence { fence: self.fences[self.frame] }
            },
            (FramePhase::AwaitingFrameFence, FrameEvent::FenceSignaled) => {
                if self.need_resize {
                    self.phase = FramePhase::Resizing;
                    self.need_resize = false;
                    FrameAction::Resize
                } else {
                    self.phase = FramePhase::AwaitingImage;
                    FrameAction::AcquireImage { frame: self.frame }
                }
            },
            (FramePhase::Resizing, FrameEvent::Resized { images }) => {
                self.resize_images(images);
                self.phase = FramePhase::AwaitingFrameFence;
                FrameAction::WaitForFence { fence: self.fences[self.frame] }
            },
            (FramePhase::AwaitingImage, FrameEvent::Acquired { code, image }) => {
                if code == ERROR_OUT_OF_DATE_KHR {
                    self.phase = FramePhase::Resizing;
                    FrameAction::Resize
                } else if code < 0 {
                    FrameAction::Fatal { code }
                } else if image as usize >= self.images.len() {
                    FrameAction::Fatal { code }
                } else {
                    let chain: usize = image as usize;
                    let guard: u64 = self.images[chain];
                    self.chain = chain;
                    if guard != NULL_FENCE {
                        self.phase = FramePhase::AwaitingImageFence;
                        FrameAction::WaitForFence { fence: guard }
                    } else {
                        let fence: u64 = self.fences[self.frame];
                        self.images.set(chain, fence);
                        self.phase = FramePhase::Rendering;
                        FrameAction::Render { chain }
                    }
                }
            },
            (FramePhase::AwaitingImageFence, FrameEvent::FenceSignaled) => {
                let fence: u64 = self.fences[self.frame];
                let chain: usize = self.chain;
                self.images.set(chain, fence);
                self.phase = FramePhase::Rendering;
                FrameAction::Render { chain }
            },
            (FramePhase::Rendering, FrameEvent::Present) => {
                self.phase = FramePhase::Presenting;
                FrameAction::Submit {
                    chain: self.chain,
                    frame: self.frame,
                    fence: self.images[self.chain],
                }
            },
            (FramePhase::Presenting, FrameEvent::Presented { code }) => {
                if code < 0 && code != ERROR_OUT_OF_DATE_KHR {
                    FrameAction::Fatal { code }
                } else {
                    if code == SUBOPTIMAL_KHR || code == ERROR_OUT_OF_DATE_KHR {
                        self.need_resize = true;
                    }
                    self.frame = (self.frame + 1) % FRAMES_PROCESSING_CONCURRENCY;
                    self.phase = FramePhase::Idle;
                    FrameAction::Rest
                }
            },
            _ => FrameAction::Refused,
        }
    }
}

/// Every step keeps the pacer well formed.
pub proof fn lemma_step_keeps_wf(pacing: Pacing, event: FrameEvent)
    requires
        pacing.wf(),
    ensures
        pacing.step(event).0.wf(),
        pacing.step(event).0.fences == pacing.fences,
{
}

/// The phases follow one another in one order only: idle, acquiring,
/// rendering, presenting, idle. While acquiring, a step stays in acquiring
/// or moves on to rendering; a resize leads back to the wait for the frame
/// slot's fence, never on to rendering.
pub proof fn lemma_phase_order(pacing: Pacing, event: FrameEvent)
    requires
        pacing.wf(),
    ensures
        ({
            let next = pacing.step(event).0;
            &&& pacing.phase == FramePhase::Idle ==> next.phase == FramePhase::Idle || next.phase
                == FramePhase::AwaitingFrameFence
            &&& pacing.is_acquiring() ==> next.is_acquiring() || next.phase == FramePhase::Rendering
            &&& pacing.phase == FramePhase::Resizing ==> next.phase == FramePhase::Resizing
                || next.phase == FramePhase::AwaitingFrameFence
            &&& pacing.phase == FramePhase::Rendering ==> next.phase == FramePhase::Rendering
                || next.phase == FramePhase::Presenting
            &&& pacing.phase == FramePhase::Presenting ==> next.phase == FramePhase::Presenting
                || next.phase == FramePhase::Idle
        }),
{
}

/// No image is handed out for rendering while a fence from its last use
/// may still be pending: rendering starts either on an image that no fence
/// guards, or on the report that the image's fence, which the pacer asked to
/// wait for in the step before, has signaled. From then on the frame slot's
/// own fence guards the image.
pub proof fn lemma_image_waits_for_its_fence(pacing: Pacing, event: FrameEvent)
    requires
        pacing.wf(),
        pacing.phase != FramePhase::Rendering,
        pacing.step(event).0.phase == FramePhase::Rendering,
    ensures
        ({
            let next = pacing.step(event).0;
            &&& pacing.step(event).1 == FrameAction::Render { chain: next.chain as usize }
            &&& next.images[next.chain as int] == pacing.frame_fence()
            &&& (pacing.phase == FramePhase::AwaitingImage && event is Acquired
                && pacing.images[next.chain as int] == NULL_FENCE) || (pacing.phase
                == FramePhase::AwaitingImageFence && event == FrameEvent::FenceSignaled
                && next.chain == pacing.chain)
        }),
{
}

/// The pacer asks for a resize only where it then takes the report of one:
/// whenever a step answers `Resize`, the report `Resized` that follows is
/// not refused. After it the pacer tracks the new number of images and
/// waits for the frame slot's fence again before it asks for an image. The
/// images that stay keep their fences, so none of them is rendered to
/// before the fence of its last use has signaled, and new images have none.
pub proof fn lemma_resize_is_taken_when_asked(pacing: Pacing, event: FrameEvent, images: usize)
    requires
        pacing.wf(),
        pacing.step(event).1 == FrameAction::Resize,
    ensures
        ({
            let asked = pacing.step(event).0;
            let (next, action) = asked.step(FrameEvent::Resized { images });
            &&& asked.phase == FramePhase::Resizing
            &&& asked.images == pacing.images
            &&& action == FrameAction::WaitForFence { fence: pacing.frame_fence() }
            &&& next.phase == FramePhase::AwaitingFrameFence
            &&& next.wf()
            &&& next.images.len() == images
            &&& forall|i: int| 0 <= i < images && i < pacing.images.len() ==> next.images[i] == pacing.images[i]
            &&& forall|i: int| pacing.images.len() <= i < images ==> next.images[i] == NULL_FENCE
        }),
{
}

/// The wait for an image's fence is asked for exactly when the acquired
/// image is guarded, and it names that image's fence.
pub proof fn lemma_guarded_image_is_waited_for(pacing: Pacing, code: i32, image: u32)
    requires
        pacing.wf(),
        pacing.phase == FramePhase::AwaitingImage,
        code >= 0,
        image < pacing.images.len(),
        pacing.images[image as int] != NULL_FENCE,
    ensures
        pacing.step(FrameEvent::Acquired { code, image }) == (
            Pacing { phase: FramePhase::AwaitingImageFence, chain: image as nat, ..pacing },
            FrameAction::WaitForFence { fence: pacing.images[image as int] },
        ),
{
}

/// A present that does not fail advances the frame slot by one, round
/// robin, whatever the surface said; and where the surface said that the
/// swapchain no longer fits, the resize is only noted: it is asked for by
/// the next acquire, after the wait for the frame slot's fence.
pub proof fn lemma_present_advances_and_defers_resize(pacing: Pacing, code: i32)
    requires
        pacing.wf(),
        pacing.phase == FramePhase::Presenting,
        code >= 0 || code == ERROR_OUT_OF_DATE_KHR,
    ensures
        ({
            let (idle, action) = pacing.step(FrameEvent::Presented { code });
            let waiting = idle.step(FrameEvent::Prepare).0;
            let (next, then) = waiting.step(FrameEvent::FenceSignaled);
            &&& action == FrameAction::Rest
            &&& idle.phase == FramePhase::Idle
            &&& idle.frame == (pacing.frame + 1) % (FRAMES_PROCESSING_CONCURRENCY as nat)
            &&& idle.images == pacing.images
            &&& (code == SUBOPTIMAL_KHR || code == ERROR_OUT_OF_DATE_KHR) ==> idle.need_resize && then
                == FrameAction::Resize && !next.need_resize
        }),
{
}

} // verus!
