//! The GPU-facing core: buffers, bindings and the frame lifecycle.

use crate::vulkan::frame::{FrameAction, FrameEvent, FramePacer, FramePhase, Pacing, NULL_FENCE};
use crate::vulkan::program::{
    all_rebuilt, all_record_to, rebuilt_as, Program, ProgramHandle, Programs, Rebuilt,
};
use crate::vulkan::shaders::Modified;
use crate::vulkan::swapchain::Swapchain;
use vstd::prelude::*;

pub mod buffer;
pub mod descriptors;
pub mod device;
pub mod frame;
pub mod program;
pub mod shaders;
pub mod swapchain;
pub mod textures;
pub mod variables;

verus! {

/// The frame component: the swapchain and what hangs on it, the pacer that
/// decides which image is rendered when, and the programs that follow the
/// swapchain's size. It owns the programs; callers hold handles.
pub struct Vulkan {
    swapchain: Swapchain,
    render_pass: u64,
    framebuffers: Vec<u64>,
    command_buffers: Vec<u64>,
    pacer: FramePacer,
    programs: Programs,
}

impl Vulkan {
    /// The pacer as a value.
    pub closed spec fn pacing(&self) -> Pacing {
        self.pacer@
    }

    /// The registered programs, in the order of their registration.
    pub closed spec fn registered(&self) -> Seq<Program> {
        self.programs@
    }

    /// The swapchain.
    pub closed spec fn spec_swapchain(&self) -> Swapchain {
        self.swapchain
    }

    /// The command buffers, one per image.
    pub closed spec fn commands(&self) -> Seq<u64> {
        self.command_buffers@
    }

    /// The framebuffers, one per image.
    pub closed spec fn spec_framebuffers(&self) -> Seq<u64> {
        self.framebuffers@
    }

    /// The render pass.
    pub closed spec fn spec_render_pass(&self) -> u64 {
        self.render_pass
    }

    /// The pacer is well formed and tracks the swapchain's images, each of
    /// which has a framebuffer and a command buffer.
    pub open spec fn wf(&self) -> bool {
        &&& self.pacing().wf()
        &&& self.pacing().images.len() == self.spec_swapchain().images@.len()
        &&& self.spec_framebuffers().len() == self.spec_swapchain().images@.len()
        &&& self.commands().len() == self.spec_swapchain().images@.len()
    }

    /// The frame component over a swapchain, a render pass, one framebuffer
    /// and one command buffer per image, and the fences of the frame slots,
    /// all as the device made them. No program is registered and the first
    /// frame has not started.
    pub fn create(
        swapchain: Swapchain,
        render_pass: u64,
        framebuffers: Vec<u64>,
        command_buffers: Vec<u64>,
        fences: Vec<u64>,
    ) -> (vulkan: Vulkan)
        requires
            fences@.len() == crate::vulkan::frame::FRAMES_PROCESSING_CONCURRENCY,
            framebuffers@.len() == swapchain.images@.len(),
            command_buffers@.len() == swapchain.images@.len(),
        ensures
            vulkan.wf(),
            vulkan.spec_swapchain() == swapchain,
            vulkan.spec_render_pass() == render_pass,
            vulkan.spec_framebuffers() == framebuffers@,
            vulkan.commands() == command_buffers@,
            vulkan.registered() == Seq::<Program>::empty(),
            vulkan.pacing().phase == FramePhase::Idle,
            vulkan.pacing().frame == 0,
            vulkan.pacing().chain == 0,
            !vulkan.pacing().need_resize,
            vulkan.pacing().fences == fences@,
            vulkan.pacing().images == Seq::new(swapchain.images@.len(), |i: int| NULL_FENCE),
    {
        let pacer = FramePacer::create(fences, swapchain.images.len());
        Vulkan { swapchain, render_pass, framebuffers, command_buffers, pacer, programs: Programs::new() }
    }

    /// Takes `program` into the list of programs that are kept up to date,
    /// and answers with its handle.
    pub fn register(&mut self, program: Program) -> (handle: ProgramHandle)
        ensures
            final(self).registered() == old(self).registered().push(program),
            handle.index == old(self).registered().len(),
            final(self).pacing() == old(self).pacing(),
            final(self).spec_swapchain() == old(self).spec_swapchain(),
            final(self).spec_framebuffers() == old(self).spec_framebuffers(),
            final(self).spec_render_pass() == old(self).spec_render_pass(),
            final(self).commands() == old(self).commands(),
    {
        self.programs.register(program)
    }

    /// The registered programs.
    pub fn programs(&self) -> (programs: &Programs)
        ensures
            programs@ == self.registered(),
    {
        &self.programs
    }

    /// The swapchain.
    pub fn swapchain(&self) -> (swapchain: &Swapchain)
        ensures
            *swapchain == self.spec_swapchain(),
    {
        &self.swapchain
    }

    /// The render pass.
    pub fn render_pass(&self) -> (render_pass: u64)
        ensures
            render_pass == self.spec_render_pass(),
    {
        self.render_pass
    }

    /// The framebuffer of the image `chain`.
    pub fn framebuffer(&self, chain: usize) -> (framebuffer: u64)
        requires
            chain < self.spec_framebuffers().len(),
        ensures
            framebuffer == self.spec_framebuffers()[chain as int],
    {
        self.framebuffers[chain]
    }

    /// The command buffer of the image `chain`.
    pub fn command_buffer(&self, chain: usize) -> (commands: u64)
        requires
            chain < self.commands().len(),
        ensures
            commands == self.commands()[chain as int],
    {
        self.command_buffers[chain]
    }

    /// The image that the frame renders to.
    pub fn chain(&self) -> (chain: usize)
        ensures
            chain == self.pacing().chain,
    {
        self.pacer.chain()
    }

    /// The frame slot that is writable now.
    pub fn frame(&self) -> (frame: usize)
        ensures
            frame == self.pacing().frame,
    {
        self.pacer.frame()
    }

    /// Where the frame stands. A swapchain that was made anew is taken in
    /// while the frame is resizing, and at no other time.
    pub fn phase(&self) -> (phase: FramePhase)
        ensures
            phase == self.pacing().phase,
    {
        self.pacer.phase()
    }

    /// Width and height of the swapchain's images in pixels.
    pub fn swapchain_image_size(&self) -> (size: [u32; 2])
        ensures
            size[0] == self.spec_swapchain().extent.width,
            size[1] == self.spec_swapchain().extent.height,
    {
        [self.swapchain.extent.width, self.swapchain.extent.height]
    }

    /// Which programs have to be rebuilt because a shader file changed,
    /// one flag per program: `now` holds, for each program, the times its
    /// vertex and its fragment shader file were last modified.
    pub fn update(&self, now: &Vec<(Modified, Modified)>) -> (changed: Vec<bool>)
        requires
            now@.len() == self.registered().len(),
        ensures
            changed@.len() == self.registered().len(),
            forall|i: int|
                0 <= i < self.registered().len() ==> #[trigger] changed@[i] == (
                self.registered()[i].frag.spec_version() != now@[i].1
                    || self.registered()[i].vert.spec_version() != now@[i].0),
    {
        self.programs.changed(now)
    }

    /// Takes in the rebuild of one program from changed shader files, for
    /// the swapchain as it is: the program's viewport is the swapchain's
    /// extent afterwards, and every other program stays as it was.
    pub fn recreate(&mut self, handle: ProgramHandle, rebuilt: Rebuilt)
        requires
            handle.index < old(self).registered().len(),
        ensures
            final(self).registered().len() == old(self).registered().len(),
            forall|i: int|
                0 <= i < old(self).registered().len() && i != handle.index ==> final(self).registered()[i]
                    == old(self).registered()[i],
            rebuilt_as(
                old(self).registered()[handle.index as int],
                final(self).registered()[handle.index as int],
                rebuilt,
                old(self).spec_swapchain().extent,
            ),
            final(self).pacing() == old(self).pacing(),
            final(self).spec_swapchain() == old(self).spec_swapchain(),
            final(self).spec_framebuffers() == old(self).spec_framebuffers(),
            final(self).spec_render_pass() == old(self).spec_render_pass(),
            final(self).commands() == old(self).commands(),
    {
        let viewport = self.swapchain.extent;
        self.programs.recreate(handle, rebuilt, viewport);
    }

    /// Takes in what happened on the device and answers with what to do
    /// next. When the answer is to render, every registered program records
    /// to the command buffer of the chosen image from then on. A swapchain
    /// that was made anew is taken in by `resize`, which has what comes with
    /// it; here the bare report of it is refused and changes nothing.
    pub fn step(&mut self, event: FrameEvent) -> (action: FrameAction)
        requires
            old(self).wf(),
        ensures
            final(self).wf(),
            !(event is Resized) ==> (final(self).pacing(), action) == old(self).pacing().step(event),
            event is Resized ==> action == FrameAction::Refused && final(self).pacing() == old(
                self,
            ).pacing(),
            action == FrameAction::Resize ==> final(self).pacing().phase == FramePhase::Resizing,
            final(self).spec_swapchain() == old(self).spec_swapchain(),
            final(self).spec_framebuffers() == old(self).spec_framebuffers(),
            final(self).spec_render_pass() == old(self).spec_render_pass(),
            final(self).commands() == old(self).commands(),
            match action {
                FrameAction::Render { chain } => chain < old(self).commands().len() && all_record_to(
                    old(self).registered(),
                    final(self).registered(),
                    old(self).commands()[chain as int],
                    chain,
                ),
                _ => final(self).registered() == old(self).registered(),
            },
    {
        if let FrameEvent::Resized { .. } = event {
            return FrameAction::Refused;
        }
        let action = self.pacer.step(event);
        match action {
            FrameAction::Render { chain } => {
                self.programs.prepare(self.command_buffers[chain], chain);
            },
            _ => {},
        }
        action
    }

    /// Starts a frame.
    pub fn prepare(&mut self) -> (action: FrameAction)
        requires
            old(self).wf(),
        ensures
            final(self).wf(),
            (final(self).pacing(), action) == old(self).pacing().step(FrameEvent::Prepare),
            final(self).registered() == old(self).registered(),
            final(self).spec_swapchain() == old(self).spec_swapchain(),
            final(self).spec_render_pass() == old(self).spec_render_pass(),
            final(self).spec_framebuffers() == old(self).spec_framebuffers(),
            final(self).commands() == old(self).commands(),
    {
        self.step(FrameEvent::Prepare)
    }

    /// Ends the recording of a frame and asks for its submission.
    pub fn present(&mut self) -> (action: FrameAction)
        requires
            old(self).wf(),
        ensures
            final(self).wf(),
            (final(self).pacing(), action) == old(self).pacing().step(FrameEvent::Present),
            final(self).registered() == old(self).registered(),
            final(self).spec_swapchain() == old(self).spec_swapchain(),
            final(self).spec_render_pass() == old(self).spec_render_pass(),
            final(self).spec_framebuffers() == old(self).spec_framebuffers(),
            final(self).commands() == old(self).commands(),
    {
        self.step(FrameEvent::Present)
    }

    /// Takes in a swapchain that was made anew, with its render pass, its
    /// framebuffers and command buffers, one of each per image, and the
    /// rebuild of every registered program for the new size. Afterwards the
    /// viewport of every registered program is the new swapchain's extent,
    /// and the pacer tracks the new images, of which the ones that stay keep
    /// their fences. Outside of a resize nothing changes and the call is
    /// refused.
    pub fn resize(
        &mut self,
        swapchain: Swapchain,
        render_pass: u64,
        framebuffers: Vec<u64>,
        command_buffers: Vec<u64>,
        rebuilt: &Vec<Rebuilt>,
    ) -> (action: FrameAction)
        requires
            old(self).wf(),
            rebuilt@.len() == old(self).registered().len(),
            framebuffers@.len() == swapchain.images@.len(),
            command_buffers@.len() == swapchain.images@.len(),
        ensures
            final(self).wf(),
            old(self).pacing().phase == FramePhase::Resizing ==> {
                &&& (final(self).pacing(), action) == old(self).pacing().step(
                    FrameEvent::Resized { images: swapchain.images@.len() as usize },
                )
                &&& final(self).spec_swapchain() == swapchain
                &&& final(self).spec_render_pass() == render_pass
                &&& final(self).spec_framebuffers() == framebuffers@
                &&& final(self).commands() == command_buffers@
                &&& all_rebuilt(old(self).registered(), final(self).registered(), rebuilt@, swapchain.extent)
            },
            old(self).pacing().phase != FramePhase::Resizing ==> {
                &&& action == FrameAction::Refused
                &&& final(self).pacing() == old(self).pacing()
                &&& final(self).spec_swapchain() == old(self).spec_swapchain()
                &&& final(self).spec_render_pass() == old(self).spec_render_pass()
                &&& final(self).spec_framebuffers() == old(self).spec_framebuffers()
                &&& final(self).commands() == old(self).commands()
                &&& final(self).registered() == old(self).registered()
            },
    {
        match self.pacer.phase() {
            FramePhase::Resizing => {
                let action = self.pacer.step(FrameEvent::Resized { images: swapchain.images.len() });
                self.programs.resize(rebuilt, swapchain.extent);
                self.swapchain = swapchain;
                self.render_pass = render_pass;
                self.framebuffers = framebuffers;
                self.command_buffers = command_buffers;
                action
            },
            _ => FrameAction::Refused,
        }
    }
}

/// After a resize every registered program's viewport is the extent of the
/// new swapchain, whatever it was before, and its pipeline is the one that
/// was built for that extent.
pub proof fn lemma_resize_sizes_every_program(
    before: Seq<Program>,
    after: Seq<Program>,
    rebuilt: Seq<Rebuilt>,
    swapchain: Swapchain,
    index: int,
)
    requires
        all_rebuilt(before, after, rebuilt, swapchain.extent),
        0 <= index < before.len(),
    ensures
        after.len() == before.len(),
        after[index].viewport == swapchain.extent,
        after[index].pipeline == rebuilt[index].pipeline,
{
}

} // verus!
