use ash::vk;
use ash::vk::Handle;
use illuminate::types::{
    COLOR_SPACE_SRGB_NONLINEAR, COMPOSITE_ALPHA_OPAQUE, FORMAT_B8G8R8A8_SRGB,
    FORMAT_D24_UNORM_S8_UINT, FORMAT_D32_SFLOAT, FORMAT_D32_SFLOAT_S8_UINT,
    FORMAT_FEATURE_DEPTH_STENCIL_ATTACHMENT, IMAGE_TILING_LINEAR, IMAGE_TILING_OPTIMAL,
    IMAGE_TYPE_2D, IMAGE_USAGE_COLOR_ATTACHMENT, IMAGE_USAGE_DEPTH_STENCIL_ATTACHMENT, SAMPLE_COUNT_1,
    MEMORY_PROPERTY_DEVICE_LOCAL, NULL_HANDLE, PRESENT_MODE_FIFO, PRESENT_MODE_IMMEDIATE,
    PRESENT_MODE_MAILBOX, RESULT_ERROR_DEVICE_LOST, RESULT_ERROR_OUT_OF_DATE,
    RESULT_ERROR_OUT_OF_DEVICE_MEMORY, RESULT_ERROR_OUT_OF_HOST_MEMORY,
    RESULT_ERROR_SURFACE_LOST, RESULT_NOT_READY, SHARING_MODE_CONCURRENT, SHARING_MODE_EXCLUSIVE,
};

#[test]
fn raw_values_are_those_of_vulkan() {

    assert_eq!(FORMAT_B8G8R8A8_SRGB, vk::Format::B8G8R8A8_SRGB.as_raw());
    assert_eq!(FORMAT_D32_SFLOAT, vk::Format::D32_SFLOAT.as_raw());
    assert_eq!(FORMAT_D32_SFLOAT_S8_UINT, vk::Format::D32_SFLOAT_S8_UINT.as_raw());
    assert_eq!(FORMAT_D24_UNORM_S8_UINT, vk::Format::D24_UNORM_S8_UINT.as_raw());
    assert_eq!(COLOR_SPACE_SRGB_NONLINEAR, vk::ColorSpaceKHR::SRGB_NONLINEAR.as_raw());
    assert_eq!(PRESENT_MODE_IMMEDIATE, vk::PresentModeKHR::IMMEDIATE.as_raw());
    assert_eq!(PRESENT_MODE_MAILBOX, vk::PresentModeKHR::MAILBOX.as_raw());
    assert_eq!(PRESENT_MODE_FIFO, vk::PresentModeKHR::FIFO.as_raw());
    assert_eq!(SHARING_MODE_EXCLUSIVE, vk::SharingMode::EXCLUSIVE.as_raw());
    assert_eq!(SHARING_MODE_CONCURRENT, vk::SharingMode::CONCURRENT.as_raw());
    assert_eq!(IMAGE_TILING_OPTIMAL, vk::ImageTiling::OPTIMAL.as_raw());
    assert_eq!(IMAGE_TILING_LINEAR, vk::ImageTiling::LINEAR.as_raw());
    assert_eq!(IMAGE_TYPE_2D, vk::ImageType::TYPE_2D.as_raw());
    assert_eq!(SAMPLE_COUNT_1, vk::SampleCountFlags::TYPE_1.as_raw());
    assert_eq!(IMAGE_USAGE_COLOR_ATTACHMENT, vk::ImageUsageFlags::COLOR_ATTACHMENT.as_raw());
    assert_eq!(IMAGE_USAGE_DEPTH_STENCIL_ATTACHMENT, vk::ImageUsageFlags::DEPTH_STENCIL_ATTACHMENT.as_raw());
    assert_eq!(COMPOSITE_ALPHA_OPAQUE, vk::CompositeAlphaFlagsKHR::OPAQUE.as_raw());
    assert_eq!(FORMAT_FEATURE_DEPTH_STENCIL_ATTACHMENT, vk::FormatFeatureFlags::DEPTH_STENCIL_ATTACHMENT.as_raw());
    assert_eq!(MEMORY_PROPERTY_DEVICE_LOCAL, vk::MemoryPropertyFlags::DEVICE_LOCAL.as_raw());
    assert_eq!(NULL_HANDLE, vk::SwapchainKHR::null().as_raw());
    assert_eq!(RESULT_NOT_READY, vk::Result::NOT_READY.as_raw());
    assert_eq!(RESULT_ERROR_OUT_OF_HOST_MEMORY, vk::Result::ERROR_OUT_OF_HOST_MEMORY.as_raw());
    assert_eq!(RESULT_ERROR_OUT_OF_DEVICE_MEMORY, vk::Result::ERROR_OUT_OF_DEVICE_MEMORY.as_raw());
    assert_eq!(RESULT_ERROR_DEVICE_LOST, vk::Result::ERROR_DEVICE_LOST.as_raw());
    assert_eq!(RESULT_ERROR_SURFACE_LOST, vk::Result::ERROR_SURFACE_LOST_KHR.as_raw());
    assert_eq!(RESULT_ERROR_OUT_OF_DATE, vk::Result::ERROR_OUT_OF_DATE_KHR.as_raw());
}
