//! Programs: a pipeline with its shaders, and the list of all of them that
//! the frame component rebuilds on resize and on shader changes.

use crate::vulkan::shaders::{Modified, Shader};
use crate::vulkan::swapchain::Extent2D;
use vstd::prelude::*;

verus! {

/// The command buffer handle that stands for no command buffer.
pub const NULL_COMMANDS: u64 = 0;

/// The shader stages that push constants are visible to: vertex and
/// fragment.
pub const PUSH_CONSTANT_STAGES: u32 = 0x11;

/// A range of push constants.
#[derive(Clone, Copy, Debug, PartialEq, Eq, Structural)]
pub struct PushConstantRange {
    pub stage_flags: u32,
    pub offset: u32,
    pub size: u32,
}

/// The push constant range that holds one `T` at offset zero, visible to the
/// vertex and the fragment stage. The size is handed on as a 32-bit number.
pub fn range<T>() -> (range: PushConstantRange)
    ensures
        range == (PushConstantRange {
            stage_flags: PUSH_CONSTANT_STAGES,
            offset: 0,
            size: vstd::layout::size_of::<T>() as u32,
        }),
{
    PushConstantRange {
        stage_flags: PUSH_CONSTANT_STAGES,
        offset: 0,
        size: #[verifier::truncate]
        (core::mem::size_of::<T>() as u32),
    }
}

/// A pipeline and its layout as the device made them.
#[derive(Clone, Copy, Debug, PartialEq, Eq, Structural)]
pub struct Pipeline {
    pub layout: u64,
    pub handle: u64,
}

/// What a rebuild of one program brings back: the modification times of the
/// shader files that were read, and the pipeline made from them.
#[derive(Clone, Copy, Debug, PartialEq, Eq, Structural)]
pub struct Rebuilt {
    pub vert: Modified,
    pub frag: Modified,
    pub pipeline: Pipeline,
}

/// A pipeline made from a vertex and a fragment shader for a viewport of a
/// given size, with the command buffer and the image it records to now.
#[derive(Debug)]
pub struct Program {
    pub name: String,
    pub pipeline: Pipeline,
    pub vert: Shader,
    pub frag: Shader,
    pub sampler: u64,
    pub viewport: Extent2D,
    pub current_commands: u64,
    pub current_frame: usize,
}

impl Program {
    /// A program over a pipeline that the device made from the two shaders
    /// for a viewport of `viewport`. It has no command buffer yet.
    pub fn create(
        name: &str,
        vert: Shader,
        frag: Shader,
        sampler: u64,
        pipeline: Pipeline,
        viewport: Extent2D,
    ) -> (program: Program)
        ensures
            program.name@ == name@,
            program.pipeline == pipeline,
            program.vert == vert,
            program.frag == frag,
            program.sampler == sampler,
            program.viewport == viewport,
            program.current_commands == NULL_COMMANDS,
            program.current_frame == 0,
    {
        Program {
            name: name.to_owned(),
            pipeline,
            vert,
            frag,
            sampler,
            viewport,
            current_commands: NULL_COMMANDS,
            current_frame: 0,
        }
    }

    /// The image that the program records to now.
    pub fn frame(&self) -> (frame: usize)
        ensures
            frame == self.current_frame,
    {
        self.current_frame
    }

    /// True once a command buffer was set.
    pub fn has_commands(&self) -> (yes: bool)
        ensures
            yes == (self.current_commands != NULL_COMMANDS),
    {
        self.current_commands != NULL_COMMANDS
    }

    /// The command buffer that the program records to now.
    pub fn commands(&self) -> (commands: u64)
        requires
            self.current_commands != NULL_COMMANDS,
        ensures
            commands == self.current_commands,
    {
        self.current_commands
    }

    /// Lets the program record to `commands`.
    pub fn set_command_buffer(&mut self, commands: u64)
        ensures
            *final(self) == (Program { current_commands: commands, ..*old(self) }),
    {
        self.current_commands = commands;
    }

    /// Lets the program record to the image `chain`.
    pub fn set_chain(&mut self, chain: usize)
        ensures
            *final(self) == (Program { current_frame: chain, ..*old(self) }),
    {
        self.current_frame = chain;
    }

    /// True when one of the two shader files was modified since the program
    /// was built: `vert` and `frag` are their modification times as they are
    /// now.
    pub fn changed(&self, vert: Modified, frag: Modified) -> (changed: bool)
        ensures
            changed == (self.frag.spec_version() != frag || self.vert.spec_version() != vert),
    {
        self.frag.changed(frag) || self.vert.changed(vert)
    }

    /// Takes in a rebuild: the shaders are renewed to the versions that were
    /// read, the pipeline is the new one, and the viewport is the one it was
    /// made for. Command buffer and image stay.
    pub fn recreate(&mut self, rebuilt: Rebuilt, viewport: Extent2D)
        ensures
            rebuilt_as(*old(self), *final(self), rebuilt, viewport),
    {
        self.vert = self.vert.renew(rebuilt.vert);
        self.frag = self.frag.renew(rebuilt.frag);
        self.pipeline = rebuilt.pipeline;
        self.viewport = viewport;
    }
}

/// The place of a registered program in the list of programs.
#[derive(Clone, Copy, Debug, PartialEq, Eq, Structural)]
pub struct ProgramHandle {
    pub index: usize,
}

/// Every program that the frame component keeps up to date. Programs are
/// registered once and stay; a handle names one of them.
pub struct Programs {
    programs: Vec<Program>,
}

impl View for Programs {
    type V = Seq<Program>;

    closed spec fn view(&self) -> Seq<Program> {
        self.programs@
    }
}

/// True when `after` is `before` with every program recording to the
/// command buffer `commands` and the image `chain`.
pub open spec fn all_record_to(before: Seq<Program>, after: Seq<Program>, commands: u64, chain: usize) -> bool {
    &&& after.len() == before.len()
    &&& forall|i: int|
        0 <= i < before.len() ==> #[trigger] after[i] == (Program {
            current_commands: commands,
            current_frame: chain,
            ..before[i]
        })
}

/// True when `after` is the program `before` rebuilt as `rebuilt` says, for
/// the viewport `viewport`: new shader versions, new pipeline, new viewport,
/// and everything else as it was.
pub open spec fn rebuilt_as(before: Program, after: Program, rebuilt: Rebuilt, viewport: Extent2D) -> bool {
    &&& after.viewport == viewport
    &&& after.pipeline == rebuilt.pipeline
    &&& after.vert.spec_version() == rebuilt.vert
    &&& after.frag.spec_version() == rebuilt.frag
    &&& after.vert.spec_path() == before.vert.spec_path()
    &&& after.frag.spec_path() == before.frag.spec_path()
    &&& after.name == before.name
    &&& after.sampler == before.sampler
    &&& after.current_commands == before.current_commands
    &&& after.current_frame == before.current_frame
}

/// True when `after` is `before` with every program rebuilt as `rebuilt`
/// says, for the viewport `viewport`.
pub open spec fn all_rebuilt(
    before: Seq<Program>,
    after: Seq<Program>,
    rebuilt: Seq<Rebuilt>,
    viewport: Extent2D,
) -> bool {
    &&& after.len() == before.len()
    &&& forall|i: int|
        0 <= i < before.len() ==> rebuilt_as(before[i], #[trigger] after[i], rebuilt[i], viewport)
}

impl Programs {
    /// No program registered.
    pub fn new() -> (programs: Programs)
        ensures
            programs@ == Seq::<Program>::empty(),
    {
        Programs { programs: Vec::new() }
    }

    /// Number of registered programs.
    pub fn len(&self) -> (count: usize)
        ensures
            count == self@.len(),
    {
        self.programs.len()
    }

    /// Takes `program` into the list and answers with its handle. The
    /// programs registered before keep their handles.
    pub fn register(&mut self, program: Program) -> (handle: ProgramHandle)
        ensures
            final(self)@ == old(self)@.push(program),
            handle.index == old(self)@.len(),
    {
        let index: usize = self.programs.len();
        self.programs.push(program);
        ProgramHandle { index }
    }

    /// The program of `handle`.
    pub fn get(&self, handle: ProgramHandle) -> (program: &Program)
        requires
            handle.index < self@.len(),
        ensures
            *program == self@[handle.index as int],
    {
        &self.programs[handle.index]
    }

    /// Lets every program record to the command buffer `commands` and the
    /// image `chain`, as at the start of each frame.
    pub fn prepare(&mut self, commands: u64, chain: usize)
        ensures
            all_record_to(old(self)@, final(self)@, commands, chain),
    {
        let mut index: usize = 0;
        while index < self.programs.len()
            invariant
                index <= self.programs@.len(),
                self.programs@.len() == old(self).programs@.len(),
                forall|i: int|
                    0 <= i < index ==> #[trigger] self.programs@[i] == (Program {
                        current_commands: commands,
                        current_frame: chain,
                        ..old(self).programs@[i]
                    }),
                forall|i: int|
                    index <= i < self.programs@.len() ==> self.programs@[i] == old(self).programs@[i],
            decreases self.programs@.len() - index,
        {
            self.programs[index].current_commands = commands;
            self.programs[index].current_frame = chain;
            index = index + 1;
        }
    }

    /// Which programs have to be rebuilt because a shader file changed:
    /// `now` holds, for each program, the modification times of its vertex
    /// and fragment shader files as they are now. Answers one flag per
    /// program.
    pub fn changed(&self, now: &Vec<(Modified, Modified)>) -> (changed: Vec<bool>)
        requires
            now@.len() == self@.len(),
        ensures
            changed@.len() == self@.len(),
            forall|i: int|
                0 <= i < self@.len() ==> #[trigger] changed@[i] == (self@[i].frag.spec_version()
                    != now@[i].1 || self@[i].vert.spec_version() != now@[i].0),
    {
        let mut changed: Vec<bool> = Vec::new();
        let mut index: usize = 0;
        while index < self.programs.len()
            invariant
                index <= self.programs@.len(),
                now@.len() == self.programs@.len(),
                changed@.len() == index,
                forall|i: int|
                    0 <= i < index ==> #[trigger] changed@[i] == (self.programs@[i].frag.spec_version()
                        != now@[i].1 || self.programs@[i].vert.spec_version() != now@[i].0),
            decreases self.programs@.len() - index,
        {
            let (vert, frag) = now[index];
            changed.push(self.programs[index].changed(vert, frag));
            index = index + 1;
        }
        changed
    }

    /// Takes in the rebuild of one program.
    pub fn recreate(&mut self, handle: ProgramHandle, rebuilt: Rebuilt, viewport: Extent2D)
        requires
            handle.index < old(self)@.len(),
        ensures
            final(self)@.len() == old(self)@.len(),
            forall|i: int|
                0 <= i < old(self)@.len() && i != handle.index ==> final(self)@[i] == old(self)@[i],
            rebuilt_as(
                old(self)@[handle.index as int],
                final(self)@[handle.index as int],
                rebuilt,
                viewport,
            ),
    {
        self.programs[handle.index].recreate(rebuilt, viewport);
    }

    /// Takes in the rebuild of every program after the swapchain was made
    /// anew with images of size `viewport`: afterwards every registered
    /// program's viewport is that size.
    pub fn resize(&mut self, rebuilt: &Vec<Rebuilt>, viewport: Extent2D)
        requires
            rebuilt@.len() == old(self)@.len(),
        ensures
            all_rebuilt(old(self)@, final(self)@, rebuilt@, viewport),
    {
        let mut index: usize = 0;
        while index < self.programs.len()
            invariant
                index <= self.programs@.len(),
                self.programs@.len() == old(self).programs@.len(),
                rebuilt@.len() == self.programs@.len(),
                forall|i: int|
                    0 <= i < index ==> rebuilt_as(
                        old(self).programs@[i],
                        #[trigger] self.programs@[i],
                        rebuilt@[i],
                        viewport,
                    ),
                forall|i: int|
                    index <= i < self.programs@.len() ==> self.programs@[i] == old(self).programs@[i],
            decreases self.programs@.len() - index,
        {
            self.programs[index].recreate(rebuilt[index], viewport);
            index = index + 1;
        }
    }
}

} // verus!
