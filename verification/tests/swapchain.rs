use ash::vk;
use slang_viewer::swapchain::{
    choose_extent, choose_image_count, choose_present_mode, choose_surface_format, plan_swapchain,
    Extent, SurfaceCapabilities, SurfaceFormat, COMPOSITE_ALPHA_OPAQUE, FORMAT_B8G8R8A8_UNORM,
    HEIGHT, PRESENT_MODE_FIFO, PRESENT_MODE_MAILBOX, SHARING_MODE_EXCLUSIVE,
    SWAPCHAIN_IMAGE_USAGE, WIDTH,
};

fn fmt(format: i32, color_space: i32) -> SurfaceFormat {
    SurfaceFormat { format, color_space }
}

#[test]
fn constants_match_vulkan() {
    assert_eq!(FORMAT_B8G8R8A8_UNORM, vk::Format::B8G8R8A8_UNORM.as_raw());
    assert_eq!(PRESENT_MODE_MAILBOX, vk::PresentModeKHR::MAILBOX.as_raw());
    assert_eq!(PRESENT_MODE_FIFO, vk::PresentModeKHR::FIFO.as_raw());
    assert_eq!(
        SWAPCHAIN_IMAGE_USAGE,
        (vk::ImageUsageFlags::COLOR_ATTACHMENT | vk::ImageUsageFlags::TRANSFER_DST).as_raw()
    );
    assert_eq!(SHARING_MODE_EXCLUSIVE, vk::SharingMode::EXCLUSIVE.as_raw());
    assert_eq!(COMPOSITE_ALPHA_OPAQUE, vk::CompositeAlphaFlagsKHR::OPAQUE.as_raw());
    assert_eq!((WIDTH, HEIGHT), (800, 600));
}

#[test]
fn preferred_format_is_chosen_first_match() {
    let formats = vec![fmt(50, 0), fmt(44, 7), fmt(44, 9)];
    let chosen = choose_surface_format(&formats);
    assert_eq!((chosen.format, chosen.color_space), (44, 7));
}

#[test]
fn first_format_when_preferred_missing() {
    let formats = vec![fmt(37, 1), fmt(50, 0)];
    let chosen = choose_surface_format(&formats);
    assert_eq!((chosen.format, chosen.color_space), (37, 1));
}

#[test]
fn single_preferred_format() {
    let chosen = choose_surface_format(&vec![fmt(44, 0)]);
    assert_eq!((chosen.format, chosen.color_space), (44, 0));
}

#[test]
fn mailbox_when_offered() {
    assert_eq!(choose_present_mode(&vec![0, 2, 1]), PRESENT_MODE_MAILBOX);
}

#[test]
fn fifo_when_mailbox_missing() {
    assert_eq!(choose_present_mode(&vec![0, 3]), PRESENT_MODE_FIFO);
    assert_eq!(choose_present_mode(&vec![]), PRESENT_MODE_FIFO);
}

#[test]
fn current_extent_is_kept() {
    let e = choose_extent(Extent { width: 1024, height: 768 });
    assert_eq!((e.width, e.height), (1024, 768));
}

#[test]
fn undefined_extent_falls_back_to_window_size() {
    let e = choose_extent(Extent { width: u32::MAX, height: u32::MAX });
    assert_eq!((e.width, e.height), (800, 600));
}

#[test]
fn image_count_one_above_minimum() {
    assert_eq!(choose_image_count(2, 0), 3);
    assert_eq!(choose_image_count(2, 8), 3);
}

#[test]
fn image_count_clamped_to_maximum() {
    assert_eq!(choose_image_count(3, 3), 3);
    assert_eq!(choose_image_count(1, 1), 1);
}

#[test]
fn image_count_at_largest_minimum() {
    assert_eq!(choose_image_count(u32::MAX - 1, 0), u32::MAX);
}

#[test]
fn full_plan() {
    let caps = SurfaceCapabilities {
        min_image_count: 2,
        max_image_count: 0,
        current_extent: Extent { width: 640, height: 480 },
        current_transform: 4,
    };
    let plan = plan_swapchain(caps, &vec![fmt(30, 0), fmt(44, 0)], &vec![2]);
    assert_eq!(plan.min_image_count, 3);
    assert_eq!((plan.format.format, plan.format.color_space), (44, 0));
    assert_eq!((plan.extent.width, plan.extent.height), (640, 480));
    assert_eq!(plan.image_array_layers, 1);
    assert_eq!(plan.image_usage, 0x12);
    assert_eq!(plan.sharing_mode, 0);
    assert_eq!(plan.pre_transform, 4);
    assert_eq!(plan.composite_alpha, 1);
    assert_eq!(plan.present_mode, PRESENT_MODE_FIFO);
    assert!(plan.clipped);
}
