use illuminate::create_info::plan_swapchain;
use illuminate::support::{SwapChainSupportDetail, SwapchainProperties};
use illuminate::types::{
    Extent2D, QueueFamilyIndices, SurfaceCapabilities, SurfaceFormat, COLOR_SPACE_SRGB_NONLINEAR,
    COMPOSITE_ALPHA_OPAQUE, FORMAT_B8G8R8A8_SRGB, IMAGE_USAGE_COLOR_ATTACHMENT, NULL_HANDLE,
    PRESENT_MODE_FIFO, PRESENT_MODE_IMMEDIATE, PRESENT_MODE_MAILBOX, SHARING_MODE_CONCURRENT,
    SHARING_MODE_EXCLUSIVE,
};

const UNORM: i32 = 44; // VK_FORMAT_B8G8R8A8_UNORM
const EXTENDED_SRGB: i32 = 1000104002; // VK_COLOR_SPACE_EXTENDED_SRGB_LINEAR_EXT

fn ext(width: u32, height: u32) -> Extent2D {
    Extent2D { width, height }
}

fn caps(min_count: u32, max_count: u32, current: Extent2D, min: Extent2D, max: Extent2D) -> SurfaceCapabilities {
    SurfaceCapabilities {
        min_image_count: min_count,
        max_image_count: max_count,
        current_extent: current,
        min_image_extent: min,
        max_image_extent: max,
        max_image_array_layers: 1,
        supported_transforms: 1,
        current_transform: 1,
        supported_composite_alpha: 1,
        supported_usage_flags: 0x1f,
    }
}

fn srgb() -> SurfaceFormat {
    SurfaceFormat { format: FORMAT_B8G8R8A8_SRGB, color_space: COLOR_SPACE_SRGB_NONLINEAR }
}

#[test]
fn format_prefers_bgra_srgb_nonlinear_wherever_listed() {
    let formats = vec![
        SurfaceFormat { format: UNORM, color_space: COLOR_SPACE_SRGB_NONLINEAR },
        SurfaceFormat { format: FORMAT_B8G8R8A8_SRGB, color_space: EXTENDED_SRGB },
        srgb(),
    ];
    assert_eq!(SwapChainSupportDetail::choose_swapchain_format(&formats), srgb());
}

#[test]
fn format_falls_back_to_first_offered() {
    let first = SurfaceFormat { format: UNORM, color_space: COLOR_SPACE_SRGB_NONLINEAR };
    let formats = vec![first, SurfaceFormat { format: FORMAT_B8G8R8A8_SRGB, color_space: EXTENDED_SRGB }];
    assert_eq!(SwapChainSupportDetail::choose_swapchain_format(&formats), first);
}

#[test]
fn present_mode_prefers_mailbox_then_immediate_then_fifo() {
    let choose = SwapChainSupportDetail::choose_swapchain_present_mode;
    assert_eq!(choose(&[PRESENT_MODE_FIFO, PRESENT_MODE_IMMEDIATE, PRESENT_MODE_MAILBOX]), PRESENT_MODE_MAILBOX);
    assert_eq!(choose(&[PRESENT_MODE_IMMEDIATE, PRESENT_MODE_FIFO]), PRESENT_MODE_IMMEDIATE);
    assert_eq!(choose(&[PRESENT_MODE_FIFO]), PRESENT_MODE_FIFO);
    assert_eq!(choose(&[3]), PRESENT_MODE_FIFO);
    assert_eq!(choose(&[]), PRESENT_MODE_FIFO);
}

#[test]
fn extent_is_the_current_one_when_fixed() {
    let c = caps(2, 3, ext(800, 600), ext(1, 1), ext(4096, 4096));
    assert_eq!(SwapChainSupportDetail::choose_swapchain_extent(&c, [1920, 1080]), ext(800, 600));
}

#[test]
fn extent_is_clamped_when_free() {
    let c = caps(2, 3, ext(u32::MAX, u32::MAX), ext(100, 200), ext(1000, 2000));
    let choose = SwapChainSupportDetail::choose_swapchain_extent;
    assert_eq!(choose(&c, [50, 5000]), ext(100, 2000));
    assert_eq!(choose(&c, [5000, 50]), ext(1000, 200));
    assert_eq!(choose(&c, [640, 480]), ext(640, 480));
}

#[test]
fn ideal_properties_combine_the_three_choices() {
    let support = SwapChainSupportDetail::new(
        caps(2, 0, ext(u32::MAX, u32::MAX), ext(1, 1), ext(1024, 768)),
        vec![srgb()],
        vec![PRESENT_MODE_IMMEDIATE],
    );
    let props = support.get_ideal_swapchain_properties([1280, 720]);
    assert_eq!(
        props,
        SwapchainProperties { surface_format: srgb(), present_mode: PRESENT_MODE_IMMEDIATE, extent: ext(1024, 720) }
    );
}

fn support_with_counts(min: u32, max: u32) -> SwapChainSupportDetail {
    SwapChainSupportDetail::new(
        caps(min, max, ext(640, 480), ext(1, 1), ext(4096, 4096)),
        vec![srgb()],
        vec![PRESENT_MODE_FIFO, PRESENT_MODE_MAILBOX],
    )
}

#[test]
fn image_count_is_one_above_the_minimum_within_the_maximum() {
    let same = QueueFamilyIndices { graphics_family: Some(0), present_family: Some(0) };
    assert_eq!(plan_swapchain(&support_with_counts(2, 0), &same, [640, 480], None).1.min_image_count, 3);
    assert_eq!(plan_swapchain(&support_with_counts(2, 8), &same, [640, 480], None).1.min_image_count, 3);
    assert_eq!(plan_swapchain(&support_with_counts(2, 2), &same, [640, 480], None).1.min_image_count, 2);
    assert_eq!(plan_swapchain(&support_with_counts(1, 2), &same, [640, 480], None).1.min_image_count, 2);
}

#[test]
fn distinct_families_share_the_images_concurrently() {
    let q = QueueFamilyIndices { graphics_family: Some(0), present_family: Some(2) };
    let (_, info) = plan_swapchain(&support_with_counts(2, 0), &q, [640, 480], None);
    assert_eq!(info.image_sharing_mode, SHARING_MODE_CONCURRENT);
    assert_eq!(info.queue_family_indices, vec![0, 2]);
}

#[test]
fn one_family_owns_the_images_exclusively() {
    let q = QueueFamilyIndices { graphics_family: Some(1), present_family: Some(1) };
    let (_, info) = plan_swapchain(&support_with_counts(2, 0), &q, [640, 480], None);
    assert_eq!(info.image_sharing_mode, SHARING_MODE_EXCLUSIVE);
    assert!(info.queue_family_indices.is_empty());
    let none = QueueFamilyIndices { graphics_family: None, present_family: None };
    let (_, info) = plan_swapchain(&support_with_counts(2, 0), &none, [640, 480], None);
    assert_eq!(info.image_sharing_mode, SHARING_MODE_EXCLUSIVE);
}

#[test]
fn create_info_carries_the_chosen_properties() {
    let q = QueueFamilyIndices { graphics_family: Some(0), present_family: Some(0) };
    let (props, info) = plan_swapchain(&support_with_counts(2, 0), &q, [100, 100], Some(77));
    assert_eq!(props.present_mode, PRESENT_MODE_MAILBOX);
    assert_eq!(props.extent, ext(640, 480));
    assert_eq!(info.image_format, FORMAT_B8G8R8A8_SRGB);
    assert_eq!(info.image_color_space, COLOR_SPACE_SRGB_NONLINEAR);
    assert_eq!(info.image_extent, ext(640, 480));
    assert_eq!(info.image_usage, IMAGE_USAGE_COLOR_ATTACHMENT);
    assert_eq!(info.pre_transform, 1);
    assert_eq!(info.composite_alpha, COMPOSITE_ALPHA_OPAQUE);
    assert_eq!(info.present_mode, PRESENT_MODE_MAILBOX);
    assert!(info.clipped);
    assert_eq!(info.image_array_layers, 1);
    assert_eq!(info.old_swapchain, 77);
    let (_, fresh) = plan_swapchain(&support_with_counts(2, 0), &q, [100, 100], None);
    assert_eq!(fresh.old_swapchain, NULL_HANDLE);
}
