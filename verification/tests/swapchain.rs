use motoro::config::GraphicsConfig;
use motoro::vulkan::device::{QueueFamilyIndex, QueueIndex};
use motoro::vulkan::swapchain::{
    Extent2D, SharingMode, SurfaceCapabilities, SurfaceFormat, Swapchain, SwapchainSupport,
    COLOR_SPACE_SRGB_NONLINEAR, FORMAT_R8G8B8A8_UNORM, PRESENT_MODE_FIFO, PRESENT_MODE_IMMEDIATE,
};
use vulkanalia::vk;

fn extent(width: u32, height: u32) -> Extent2D {
    Extent2D { width, height }
}

fn support() -> SwapchainSupport {
    SwapchainSupport {
        capabilities: SurfaceCapabilities {
            min_image_count: 2,
            max_image_count: 0,
            current_extent: extent(u32::MAX, u32::MAX),
            min_image_extent: extent(100, 50),
            max_image_extent: extent(2000, 1000),
        },
        formats: vec![
            SurfaceFormat {
                format: 44,
                color_space: 0,
            },
            SurfaceFormat {
                format: 37,
                color_space: 7,
            },
            SurfaceFormat {
                format: 37,
                color_space: 0,
            },
        ],
        present_modes: vec![2, 3],
    }
}

fn queues(graphics: u32, present: u32) -> QueueFamilyIndex {
    QueueFamilyIndex {
        graphics: QueueIndex::new(graphics, 0),
        present: QueueIndex::new(present, 0),
        loading: QueueIndex::new(graphics, 1),
    }
}

#[test]
fn swapchain_constants_are_those_of_the_device_interface() {
    assert_eq!(FORMAT_R8G8B8A8_UNORM, vk::Format::R8G8B8A8_UNORM.as_raw());
    assert_eq!(
        COLOR_SPACE_SRGB_NONLINEAR,
        vk::ColorSpaceKHR::SRGB_NONLINEAR.as_raw()
    );
    assert_eq!(PRESENT_MODE_IMMEDIATE, vk::PresentModeKHR::IMMEDIATE.as_raw());
    assert_eq!(PRESENT_MODE_FIFO, vk::PresentModeKHR::FIFO.as_raw());
}

#[test]
fn preferred_format_wins() {
    let mut support = support();
    assert_eq!(
        support.get_swapchain_surface_format(),
        SurfaceFormat {
            format: 37,
            color_space: 0
        }
    );
    support.formats.truncate(2);
    assert_eq!(
        support.get_swapchain_surface_format(),
        SurfaceFormat {
            format: 44,
            color_space: 0
        }
    );
}

#[test]
fn present_mode_falls_back_to_immediate() {
    let support = support();
    assert_eq!(support.get_swapchain_present_mode(2), 2);
    assert_eq!(support.get_swapchain_present_mode(3), 3);
    assert_eq!(support.get_swapchain_present_mode(1), 0);
}

#[test]
fn extent_is_the_surface_size_or_the_clamped_drawable() {
    let mut support = support();
    assert_eq!(
        support.get_swapchain_extent(extent(800, 600)),
        extent(800, 600)
    );
    assert_eq!(
        support.get_swapchain_extent(extent(10, 5000)),
        extent(100, 1000)
    );
    support.capabilities.min_image_extent = extent(3000, 3000);
    assert_eq!(
        support.get_swapchain_extent(extent(800, 600)),
        extent(3000, 3000)
    );
    support.capabilities.current_extent = extent(640, 480);
    assert_eq!(
        support.get_swapchain_extent(extent(800, 600)),
        extent(640, 480)
    );
}

#[test]
fn image_count_is_one_more_than_the_least() {
    let mut support = support();
    assert_eq!(support.image_count(), 3);
    support.capabilities.max_image_count = 2;
    assert_eq!(support.image_count(), 2);
    support.capabilities.max_image_count = 3;
    assert_eq!(support.image_count(), 3);
    support.capabilities.max_image_count = 8;
    assert_eq!(support.image_count(), 3);
}

#[test]
fn adequate_needs_formats_and_modes() {
    let mut support = support();
    assert!(support.is_adequate());
    support.present_modes.clear();
    assert!(!support.is_adequate());
    support.present_modes.push(0);
    support.formats.clear();
    assert!(!support.is_adequate());
}

#[test]
fn plan_shares_images_between_two_families() {
    let support = support();
    let plan = Swapchain::plan(&support, extent(800, 600), queues(0, 0), 2);
    assert_eq!(plan.image_count, 3);
    assert_eq!(plan.surface_format.format, 37);
    assert_eq!(plan.extent, extent(800, 600));
    assert_eq!(plan.present_mode, 2);
    assert_eq!(plan.sharing_mode, SharingMode::Exclusive);
    assert!(plan.queue_family_indices.is_empty());
    let plan = Swapchain::plan(&support, extent(800, 600), queues(0, 1), 1);
    assert_eq!(plan.present_mode, 0);
    assert_eq!(plan.sharing_mode, SharingMode::Concurrent);
    assert_eq!(plan.queue_family_indices, vec![0, 1]);
}

#[test]
fn swapchain_has_a_frame_per_image() {
    let swapchain = Swapchain {
        format: 37,
        extent: extent(1, 1),
        handle: 1,
        images: vec![1, 2, 3],
        views: vec![4, 5, 6],
    };
    assert_eq!(swapchain.frames(), 3);
}

#[test]
fn vsync_asks_for_fifo() {
    let config = GraphicsConfig::default();
    assert_eq!(config.present_mode(), PRESENT_MODE_FIFO);
    let mut config = GraphicsConfig::default();
    config.vsync = false;
    assert_eq!(config.present_mode(), PRESENT_MODE_IMMEDIATE);
}
