use illuminate::error::DeviceError;
use illuminate::framebuffer::{FramebufferCache, FramebufferDescriptor, FramebufferLookup};
use illuminate::memory::{
    depth_format_candidates, select_supported_format, FormatProperties, MemoryProperties,
    MemoryRequirements, MemoryType,
};
use illuminate::swapchain::Swapchain;
use illuminate::types::{
    Extent2D, FORMAT_D24_UNORM_S8_UINT, FORMAT_D32_SFLOAT, FORMAT_D32_SFLOAT_S8_UINT,
    FORMAT_FEATURE_DEPTH_STENCIL_ATTACHMENT, IMAGE_TILING_LINEAR, IMAGE_TILING_OPTIMAL,
    MEMORY_PROPERTY_DEVICE_LOCAL,
};

const HOST_VISIBLE: u32 = 0x2;
const HOST_COHERENT: u32 = 0x4;

fn memory(flags: &[u32]) -> MemoryProperties {
    let mut types: Vec<MemoryType> = flags.iter().map(|f| MemoryType { property_flags: *f, heap_index: 0 }).collect();
    let count = types.len() as u32;
    while types.len() < 32 {
        types.push(MemoryType { property_flags: 0, heap_index: 0 });
    }
    MemoryProperties { memory_type_count: count, memory_types: types }
}

fn requirements(bits: u32) -> MemoryRequirements {
    MemoryRequirements { size: 4096, alignment: 256, memory_type_bits: bits }
}

#[test]
fn memory_type_is_the_first_allowed_with_every_property() {
    let props = memory(&[MEMORY_PROPERTY_DEVICE_LOCAL, HOST_VISIBLE, HOST_VISIBLE | HOST_COHERENT, HOST_VISIBLE | HOST_COHERENT]);
    let wanted = HOST_VISIBLE | HOST_COHERENT;
    assert_eq!(Swapchain::get_memory_type_index(&props, wanted, requirements(0b1111)), 2);
    assert_eq!(Swapchain::get_memory_type_index(&props, wanted, requirements(0b1000)), 3);
    assert_eq!(Swapchain::get_memory_type_index(&props, HOST_VISIBLE, requirements(0b1111)), 1);
    assert_eq!(Swapchain::get_memory_type_index(&props, MEMORY_PROPERTY_DEVICE_LOCAL, requirements(0b0001)), 0);
    assert_eq!(Swapchain::get_memory_type_index(&props, 0, requirements(0b0100)), 2);
}

#[test]
fn memory_type_beyond_the_count_is_never_chosen() {
    let mut props = memory(&[HOST_VISIBLE, HOST_VISIBLE]);
    props.memory_types[2].property_flags = MEMORY_PROPERTY_DEVICE_LOCAL;
    assert_eq!(Swapchain::get_memory_type_index(&props, 0, requirements(0b0110)), 1);
}

fn features(optimal: u32) -> FormatProperties {
    FormatProperties { linear_tiling_features: 0, optimal_tiling_features: optimal, buffer_features: 0 }
}

#[test]
fn depth_format_candidates_in_order_of_preference() {
    assert_eq!(depth_format_candidates(), vec![FORMAT_D32_SFLOAT, FORMAT_D32_SFLOAT_S8_UINT, FORMAT_D24_UNORM_S8_UINT]);
}

#[test]
fn depth_format_is_the_first_supported() {
    let ds = FORMAT_FEATURE_DEPTH_STENCIL_ATTACHMENT;
    assert_eq!(Swapchain::get_depth_format(&vec![features(ds | 0x1), features(ds), features(ds)]), Ok(FORMAT_D32_SFLOAT));
    assert_eq!(Swapchain::get_depth_format(&vec![features(0x1), features(ds), features(ds)]), Ok(FORMAT_D32_SFLOAT_S8_UINT));
    assert_eq!(Swapchain::get_depth_format(&vec![features(0), features(0x400), features(ds)]), Ok(FORMAT_D24_UNORM_S8_UINT));
}

#[test]
fn depth_format_unsupported_when_none_qualifies() {
    let linear_only = FormatProperties {
        linear_tiling_features: FORMAT_FEATURE_DEPTH_STENCIL_ATTACHMENT,
        optimal_tiling_features: 0,
        buffer_features: FORMAT_FEATURE_DEPTH_STENCIL_ATTACHMENT,
    };
    assert_eq!(Swapchain::get_depth_format(&vec![linear_only, linear_only, linear_only]), Err(DeviceError::Unsupported));
}

#[test]
fn supported_format_reads_the_asked_tiling() {
    let linear_only = FormatProperties { linear_tiling_features: 0x3, optimal_tiling_features: 0, buffer_features: 0 };
    let both = FormatProperties { linear_tiling_features: 0x1, optimal_tiling_features: 0x3, buffer_features: 0 };
    let candidates = vec![10, 20];
    let props = vec![linear_only, both];
    assert_eq!(select_supported_format(&candidates, &props, IMAGE_TILING_LINEAR, 0x3), Ok(10));
    assert_eq!(select_supported_format(&candidates, &props, IMAGE_TILING_OPTIMAL, 0x3), Ok(20));
    assert_eq!(select_supported_format(&candidates, &props, 7, 0x1), Err(DeviceError::Unsupported));
}

fn desc(render_pass: u64, views: Vec<u64>, w: u32, h: u32) -> FramebufferDescriptor {
    FramebufferDescriptor::new(render_pass, views, Extent2D { width: w, height: h })
}

#[test]
fn cache_gives_back_what_was_inserted() {
    let mut cache = FramebufferCache::new();
    assert_eq!(cache.get(&desc(1, vec![10], 640, 480)), None);
    assert_eq!(cache.insert(desc(1, vec![10], 640, 480), 100), None);
    assert_eq!(cache.insert(desc(1, vec![11], 640, 480), 101), None);
    assert_eq!(cache.get(&desc(1, vec![10], 640, 480)), Some(100));
    assert_eq!(cache.get(&desc(1, vec![11], 640, 480)), Some(101));
    assert_eq!(cache.get(&desc(1, vec![10], 640, 481)), None);
    assert_eq!(cache.get(&desc(2, vec![10], 640, 480)), None);
    assert_eq!(cache.get(&desc(1, vec![10, 11], 640, 480)), None);
    assert_eq!(cache.insert(desc(1, vec![10], 640, 480), 200), Some(100));
    assert_eq!(cache.get(&desc(1, vec![10], 640, 480)), Some(200));
    assert_eq!(cache.get(&desc(1, vec![11], 640, 480)), Some(101));
}

#[test]
fn framebuffer_is_reused_when_cached() {
    let mut cache = FramebufferCache::new();
    cache.insert(desc(1, vec![10], 640, 480), 100);
    match Swapchain::create_framebuffer(&cache, desc(1, vec![10], 640, 480)) {
        FramebufferLookup::Cached(fb) => assert_eq!(fb, 100),
        FramebufferLookup::Create(_) => panic!("expected the cached framebuffer"),
    }
}

#[test]
fn framebuffer_is_created_when_not_cached() {
    let cache = FramebufferCache::new();
    match Swapchain::create_framebuffer(&cache, desc(7, vec![10, 12], 800, 600)) {
        FramebufferLookup::Create(info) => {
            assert_eq!(info.render_pass, 7);
            assert_eq!(info.attachments, vec![10, 12]);
            assert_eq!((info.width, info.height, info.layers), (800, 600, 1));
        }
        FramebufferLookup::Cached(_) => panic!("nothing was cached"),
    }
    assert_eq!(cache.get(&desc(7, vec![10, 12], 800, 600)), None);
}
