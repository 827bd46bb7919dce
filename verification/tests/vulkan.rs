use motoro::vulkan::frame::{
    FrameAction, FrameEvent, FramePhase, ERROR_OUT_OF_DATE_KHR, SUBOPTIMAL_KHR,
};
use motoro::vulkan::program::{
    range, Pipeline, Program, ProgramHandle, Programs, PushConstantRange, Rebuilt, NULL_COMMANDS,
    PUSH_CONSTANT_STAGES,
};
use motoro::vulkan::shaders::{Modified, Shader};
use motoro::vulkan::swapchain::{Extent2D, Swapchain};
use motoro::vulkan::Vulkan;
use vulkanalia::vk;
use vulkanalia::vk::Handle;

fn at(secs: u64) -> Modified {
    Modified { secs, nanos: 0 }
}

fn swapchain(width: u32, height: u32, images: usize) -> Swapchain {
    Swapchain {
        format: 37,
        extent: Extent2D { width, height },
        handle: 1,
        images: (0..images as u64).map(|i| 10 + i).collect(),
        views: (0..images as u64).map(|i| 20 + i).collect(),
    }
}

fn program(name: &str, width: u32, height: u32) -> Program {
    Program::create(
        name,
        Shader::new("a.vert.spv", at(1)),
        Shader::new("a.frag.spv", at(2)),
        5,
        Pipeline {
            layout: 6,
            handle: 7,
        },
        Extent2D { width, height },
    )
}

fn vulkan() -> Vulkan {
    let mut vulkan = Vulkan::create(
        swapchain(800, 600, 3),
        2,
        vec![30, 31, 32],
        vec![40, 41, 42],
        vec![50, 51],
    );
    assert_eq!(
        vulkan.register(program("shapes", 800, 600)),
        ProgramHandle { index: 0 }
    );
    assert_eq!(
        vulkan.register(program("canvas", 800, 600)),
        ProgramHandle { index: 1 }
    );
    vulkan
}

#[test]
fn shader_follows_its_file() {
    let shader = Shader::new("a.frag.spv", at(5));
    assert_eq!(shader.path(), "a.frag.spv");
    assert_eq!(shader.version(), at(5));
    assert!(!shader.changed(at(5)));
    assert!(shader.changed(at(6)));
    assert!(shader.changed(Modified { secs: 5, nanos: 1 }));
    let renewed = shader.renew(at(6));
    assert_eq!(renewed.path(), "a.frag.spv");
    assert!(!renewed.changed(at(6)));
}

#[test]
fn program_starts_without_commands() {
    let mut program = program("shapes", 800, 600);
    assert_eq!(program.name, "shapes");
    assert_eq!(program.frame(), 0);
    assert!(!program.has_commands());
    assert_eq!(program.current_commands, NULL_COMMANDS);
    assert_eq!(NULL_COMMANDS as usize, vk::CommandBuffer::null().as_raw());
    program.set_command_buffer(9);
    program.set_chain(2);
    assert!(program.has_commands());
    assert_eq!(program.commands(), 9);
    assert_eq!(program.frame(), 2);
    assert!(!program.changed(at(1), at(2)));
    assert!(program.changed(at(3), at(2)));
    assert!(program.changed(at(1), at(3)));
}

#[test]
fn push_constant_range_holds_one_value() {
    assert_eq!(
        range::<[u32; 4]>(),
        PushConstantRange {
            stage_flags: PUSH_CONSTANT_STAGES,
            offset: 0,
            size: 16
        }
    );
    assert_eq!(
        PUSH_CONSTANT_STAGES,
        (vk::ShaderStageFlags::VERTEX | vk::ShaderStageFlags::FRAGMENT).bits()
    );
}

#[test]
fn registry_keeps_handles_stable() {
    let mut programs = Programs::new();
    assert_eq!(programs.len(), 0);
    let first = programs.register(program("a", 1, 1));
    let second = programs.register(program("b", 2, 2));
    assert_eq!(first.index, 0);
    assert_eq!(second.index, 1);
    assert_eq!(programs.get(first).name, "a");
    assert_eq!(programs.get(second).name, "b");
    assert_eq!(
        programs.changed(&vec![(at(1), at(2)), (at(1), at(9))]),
        vec![false, true]
    );
    programs.recreate(
        second,
        Rebuilt {
            vert: at(1),
            frag: at(9),
            pipeline: Pipeline {
                layout: 60,
                handle: 70,
            },
        },
        Extent2D {
            width: 3,
            height: 3,
        },
    );
    assert_eq!(
        programs.changed(&vec![(at(1), at(2)), (at(1), at(9))]),
        vec![false, false]
    );
    assert_eq!(programs.get(second).pipeline.handle, 70);
    assert_eq!(programs.get(first).pipeline.handle, 7);
    assert_eq!(programs.get(first).viewport.width, 1);
}

#[test]
fn rendering_hands_every_program_the_command_buffer() {
    let mut vulkan = vulkan();
    assert_eq!(vulkan.prepare(), FrameAction::WaitForFence { fence: 50 });
    assert_eq!(
        vulkan.step(FrameEvent::FenceSignaled),
        FrameAction::AcquireImage { frame: 0 }
    );
    assert_eq!(
        vulkan.step(FrameEvent::Acquired { code: 0, image: 2 }),
        FrameAction::Render { chain: 2 }
    );
    assert_eq!(vulkan.chain(), 2);
    assert_eq!(vulkan.command_buffer(2), 42);
    assert_eq!(vulkan.framebuffer(2), 32);
    for index in 0..2 {
        let program = vulkan.programs().get(ProgramHandle { index });
        assert_eq!(program.commands(), 42);
        assert_eq!(program.frame(), 2);
    }
    assert_eq!(
        vulkan.present(),
        FrameAction::Submit {
            chain: 2,
            frame: 0,
            fence: 50
        }
    );
    assert_eq!(
        vulkan.step(FrameEvent::Presented { code: 0 }),
        FrameAction::Rest
    );
    assert_eq!(vulkan.frame(), 1);
}

#[test]
fn resize_from_800x600_to_1024x768_sizes_every_program() {
    let mut vulkan = vulkan();
    assert_eq!(vulkan.swapchain_image_size(), [800, 600]);
    vulkan.prepare();
    vulkan.step(FrameEvent::FenceSignaled);
    assert_eq!(
        vulkan.step(FrameEvent::Acquired { code: 0, image: 1 }),
        FrameAction::Render { chain: 1 }
    );
    vulkan.present();
    assert_eq!(
        vulkan.step(FrameEvent::Presented {
            code: SUBOPTIMAL_KHR
        }),
        FrameAction::Rest
    );
    assert_eq!(vulkan.prepare(), FrameAction::WaitForFence { fence: 51 });
    assert_eq!(vulkan.step(FrameEvent::FenceSignaled), FrameAction::Resize);
    let rebuilt = vec![
        Rebuilt {
            vert: at(1),
            frag: at(2),
            pipeline: Pipeline {
                layout: 60,
                handle: 70,
            },
        },
        Rebuilt {
            vert: at(3),
            frag: at(4),
            pipeline: Pipeline {
                layout: 61,
                handle: 71,
            },
        },
    ];
    assert_eq!(
        vulkan.resize(
            swapchain(1024, 768, 3),
            3,
            vec![33, 34, 35],
            vec![43, 44, 45],
            &rebuilt
        ),
        FrameAction::WaitForFence { fence: 51 }
    );
    assert_eq!(vulkan.command_buffer(2), 45);
    assert_eq!(vulkan.swapchain_image_size(), [1024, 768]);
    assert_eq!(vulkan.render_pass(), 3);
    assert_eq!(vulkan.framebuffer(0), 33);
    assert_eq!(vulkan.swapchain().extent.width, 1024);
    for index in 0..2 {
        let program = vulkan.programs().get(ProgramHandle { index });
        assert_eq!(
            program.viewport,
            Extent2D {
                width: 1024,
                height: 768
            }
        );
        assert_eq!(program.pipeline, rebuilt[index].pipeline);
        assert_eq!(program.vert.version(), rebuilt[index].vert);
        assert_eq!(program.frag.version(), rebuilt[index].frag);
    }
    assert_eq!(
        vulkan.step(FrameEvent::FenceSignaled),
        FrameAction::AcquireImage { frame: 1 }
    );
    assert_eq!(
        vulkan.step(FrameEvent::Acquired { code: 0, image: 1 }),
        FrameAction::WaitForFence { fence: 50 }
    );
    assert_eq!(
        vulkan.step(FrameEvent::FenceSignaled),
        FrameAction::Render { chain: 1 }
    );
}

#[test]
fn resize_outside_of_a_resize_is_refused() {
    let mut vulkan = vulkan();
    let rebuilt = vec![
        Rebuilt {
            vert: at(1),
            frag: at(2),
            pipeline: Pipeline {
                layout: 60,
                handle: 70,
            },
        };
        2
    ];
    assert_eq!(
        vulkan.resize(
            swapchain(1024, 768, 3),
            3,
            vec![33, 34, 35],
            vec![43, 44, 45],
            &rebuilt
        ),
        FrameAction::Refused
    );
    assert_eq!(vulkan.command_buffer(0), 40);
    assert_eq!(vulkan.framebuffer(0), 30);
    assert_eq!(vulkan.render_pass(), 2);
    assert_eq!(vulkan.swapchain_image_size(), [800, 600]);
    assert_eq!(
        vulkan
            .programs()
            .get(ProgramHandle { index: 0 })
            .viewport
            .width,
        800
    );
}

#[test]
fn update_tells_which_programs_changed() {
    let vulkan = vulkan();
    assert_eq!(
        vulkan.update(&vec![(at(1), at(2)), (at(2), at(2))]),
        vec![false, true]
    );
}

#[test]
fn a_resize_may_bring_more_images() {
    let mut vulkan = vulkan();
    vulkan.prepare();
    vulkan.step(FrameEvent::FenceSignaled);
    assert_eq!(
        vulkan.step(FrameEvent::Acquired {
            code: ERROR_OUT_OF_DATE_KHR,
            image: 0
        }),
        FrameAction::Resize
    );
    let rebuilt = vec![
        Rebuilt {
            vert: at(1),
            frag: at(2),
            pipeline: Pipeline {
                layout: 60,
                handle: 70,
            },
        };
        2
    ];
    assert_eq!(
        vulkan.resize(
            swapchain(1024, 768, 5),
            3,
            vec![33, 34, 35, 36, 37],
            vec![43, 44, 45, 46, 47],
            &rebuilt
        ),
        FrameAction::WaitForFence { fence: 50 }
    );
    assert_eq!(vulkan.swapchain().frames(), 5);
    vulkan.step(FrameEvent::FenceSignaled);
    assert_eq!(
        vulkan.step(FrameEvent::Acquired { code: 0, image: 4 }),
        FrameAction::Render { chain: 4 }
    );
    assert_eq!(vulkan.command_buffer(4), 47);
    assert_eq!(vulkan.framebuffer(4), 37);
    for index in 0..2 {
        let program = vulkan.programs().get(ProgramHandle { index });
        assert_eq!(program.commands(), 47);
        assert_eq!(program.viewport.width, 1024);
    }
}

#[test]
fn present_and_prepare_keep_what_hangs_on_the_swapchain() {
    let mut vulkan = vulkan();
    vulkan.prepare();
    vulkan.step(FrameEvent::FenceSignaled);
    vulkan.step(FrameEvent::Acquired { code: 0, image: 0 });
    vulkan.present();
    vulkan.step(FrameEvent::Presented { code: 0 });
    assert_eq!(vulkan.render_pass(), 2);
    assert_eq!(vulkan.framebuffer(1), 31);
    assert_eq!(vulkan.command_buffer(1), 41);
    assert_eq!(vulkan.swapchain_image_size(), [800, 600]);
}

#[test]
fn the_bare_report_of_a_resize_is_refused() {
    let mut vulkan = vulkan();
    vulkan.prepare();
    vulkan.step(FrameEvent::FenceSignaled);
    assert_eq!(
        vulkan.step(FrameEvent::Acquired {
            code: ERROR_OUT_OF_DATE_KHR,
            image: 0
        }),
        FrameAction::Resize
    );
    assert_eq!(
        vulkan.step(FrameEvent::Resized { images: 9 }),
        FrameAction::Refused
    );
    assert_eq!(vulkan.swapchain().frames(), 3);
    assert_eq!(vulkan.step(FrameEvent::FenceSignaled), FrameAction::Refused);
}

#[test]
fn the_phase_tells_when_a_resize_is_taken() {
    let mut vulkan = vulkan();
    assert_eq!(vulkan.phase(), FramePhase::Idle);
    vulkan.prepare();
    assert_eq!(vulkan.phase(), FramePhase::AwaitingFrameFence);
    vulkan.step(FrameEvent::FenceSignaled);
    assert_eq!(vulkan.phase(), FramePhase::AwaitingImage);
    // every request for a resize leaves the frame in the phase that takes it
    assert_eq!(
        vulkan.step(FrameEvent::Acquired {
            code: ERROR_OUT_OF_DATE_KHR,
            image: 0
        }),
        FrameAction::Resize
    );
    assert_eq!(vulkan.phase(), FramePhase::Resizing);
    let rebuilt: Vec<Rebuilt> = (0..2)
        .map(|index| Rebuilt {
            vert: at(1),
            frag: at(2),
            pipeline: Pipeline {
                layout: 60 + index,
                handle: 70 + index,
            },
        })
        .collect();
    assert_eq!(
        vulkan.resize(swapchain(1024, 768, 2), 3, vec![33, 34], vec![43, 44], &rebuilt),
        FrameAction::WaitForFence { fence: 50 }
    );
    assert_eq!(vulkan.phase(), FramePhase::AwaitingFrameFence);
    assert_eq!(vulkan.swapchain_image_size(), [1024, 768]);
    // a second swapchain without a request is refused
    assert_eq!(
        vulkan.resize(swapchain(640, 480, 2), 4, vec![36, 37], vec![46, 47], &rebuilt),
        FrameAction::Refused
    );
    assert_eq!(vulkan.swapchain_image_size(), [1024, 768]);
}
