//! What the swapchain is created with (`VkSwapchainCreateInfoKHR`, without the surface).

use vstd::prelude::*;
use crate::support::{SwapChainSupportDetail, SwapchainProperties};
use crate::types::{
    Extent2D, QueueFamilyIndices, SurfaceCapabilities, COMPOSITE_ALPHA_OPAQUE,
    IMAGE_USAGE_COLOR_ATTACHMENT, NULL_HANDLE, SHARING_MODE_CONCURRENT, SHARING_MODE_EXCLUSIVE,
};

verus! {

/// The fields of a swapchain's create info that the renderer decides.
pub struct SwapchainCreateInfo {
    pub min_image_count: u32,
    pub image_format: i32,
    pub image_color_space: i32,
    pub image_extent: Extent2D,
    pub image_usage: u32,
    pub image_sharing_mode: i32,
    pub queue_family_indices: Vec<u32>,
    pub pre_transform: u32,
    pub composite_alpha: u32,
    pub present_mode: i32,
    pub clipped: bool,
    pub image_array_layers: u32,
    pub old_swapchain: u64,
}

/// One image more than the surface's minimum, capped by its maximum where it has one.
pub open spec fn spec_image_count(capabilities: SurfaceCapabilities) -> int {
    let wanted = capabilities.min_image_count + 1;
    if capabilities.max_image_count > 0 && wanted > capabilities.max_image_count {
        capabilities.max_image_count as int
    } else {
        wanted
    }
}

/// Rendering and presenting happen on different queue families.
pub open spec fn families_differ(queue_family: QueueFamilyIndices) -> bool {
    queue_family.graphics_family != queue_family.present_family
}

/// Where the families differ, both are known (the images are then shared between them).
pub open spec fn families_known_when_shared(queue_family: QueueFamilyIndices) -> bool {
    families_differ(queue_family) ==> {
        &&& queue_family.graphics_family is Some
        &&& queue_family.present_family is Some
    }
}

/// The sharing mode: concurrent between two distinct families, else exclusive.
pub open spec fn spec_sharing_mode(queue_family: QueueFamilyIndices) -> i32 {
    if families_differ(queue_family) {
        SHARING_MODE_CONCURRENT
    } else {
        SHARING_MODE_EXCLUSIVE
    }
}

/// The families that share the images: graphics then present when they differ, none otherwise.
pub open spec fn spec_sharing_families(queue_family: QueueFamilyIndices) -> Seq<u32> {
    if families_differ(queue_family) {
        seq![queue_family.graphics_family.unwrap(), queue_family.present_family.unwrap()]
    } else {
        Seq::empty()
    }
}

/// The swapchain to replace, or the null handle.
pub open spec fn spec_old_swapchain(old_swapchain: Option<u64>) -> u64 {
    match old_swapchain {
        Some(s) => s,
        None => NULL_HANDLE,
    }
}

/// What `plan_swapchain` accepts: a choosable support whose minimum image count leaves
/// room for one more image, and queue families that are known where they are shared.
pub open spec fn plannable(support: &SwapChainSupportDetail, queue_family: QueueFamilyIndices) -> bool {
    &&& support.choosable()
    &&& support.capabilities.min_image_count < u32::MAX
    &&& families_known_when_shared(queue_family)
}

/// The create info holds exactly what the renderer decides for `properties`.
pub open spec fn create_info_matches(
    info: SwapchainCreateInfo,
    support: &SwapChainSupportDetail,
    properties: SwapchainProperties,
    queue_family: QueueFamilyIndices,
    old_swapchain: Option<u64>,
) -> bool {
    &&& info.min_image_count == spec_image_count(support.capabilities)
    &&& info.image_format == properties.surface_format.format
    &&& info.image_color_space == properties.surface_format.color_space
    &&& info.image_extent == properties.extent
    &&& info.image_usage == IMAGE_USAGE_COLOR_ATTACHMENT
    &&& info.image_sharing_mode == spec_sharing_mode(queue_family)
    &&& info.queue_family_indices@ == spec_sharing_families(queue_family)
    &&& info.pre_transform == support.capabilities.current_transform
    &&& info.composite_alpha == COMPOSITE_ALPHA_OPAQUE
    &&& info.present_mode == properties.present_mode
    &&& info.clipped
    &&& info.image_array_layers == 1
    &&& info.old_swapchain == spec_old_swapchain(old_swapchain)
}

/// Decides the swapchain's properties and its create info from what the surface supports,
/// the queue families, the window's dimensions and the swapchain it replaces, if any.
pub fn plan_swapchain(
    support: &SwapChainSupportDetail,
    queue_family: &QueueFamilyIndices,
    dimensions: [u32; 2],
    old_swapchain: Option<u64>,
) -> (r: (SwapchainProperties, SwapchainCreateInfo))
    requires
        plannable(support, *queue_family),
    ensures
        r.0 == support.spec_ideal_properties(dimensions),
        create_info_matches(r.1, support, r.0, *queue_family, old_swapchain),
        r.1.composite_alpha == COMPOSITE_ALPHA_OPAQUE,
        r.1.image_usage == IMAGE_USAGE_COLOR_ATTACHMENT,
        r.1.clipped,
        r.1.image_array_layers == 1,
        r.1.pre_transform == support.capabilities.current_transform,
        r.1.image_format == r.0.surface_format.format,
        r.1.image_color_space == r.0.surface_format.color_space,
        r.1.image_extent == r.0.extent,
        r.1.present_mode == r.0.present_mode,
        support.capabilities.max_image_count == 0 || support.capabilities.min_image_count
            < support.capabilities.max_image_count ==> r.1.min_image_count
            == support.capabilities.min_image_count + 1,
        support.capabilities.max_image_count > 0 && support.capabilities.min_image_count
            >= support.capabilities.max_image_count ==> r.1.min_image_count
            == support.capabilities.max_image_count,
        queue_family.graphics_family != queue_family.present_family ==> {
            &&& r.1.image_sharing_mode == SHARING_MODE_CONCURRENT
            &&& r.1.queue_family_indices@ == seq![
                queue_family.graphics_family.unwrap(),
                queue_family.present_family.unwrap(),
            ]
        },
        queue_family.graphics_family == queue_family.present_family ==> {
            &&& r.1.image_sharing_mode == SHARING_MODE_EXCLUSIVE
            &&& r.1.queue_family_indices@.len() == 0
        },
        old_swapchain is None ==> r.1.old_swapchain == NULL_HANDLE,
        old_swapchain matches Some(s) ==> r.1.old_swapchain == s,
{
    let properties = support.get_ideal_swapchain_properties(dimensions);
    let capabilities = &support.capabilities;

    let image_count = capabilities.min_image_count + 1;
    let image_count = if capabilities.max_image_count > 0 && image_count > capabilities.max_image_count {
        capabilities.max_image_count
    } else {
        image_count
    };

    let (image_sharing_mode, queue_family_indices) = if queue_family.graphics_family
        != queue_family.present_family {
        let graphics = queue_family.graphics_family.unwrap();
        let present = queue_family.present_family.unwrap();
        let indices: Vec<u32> = vec![graphics, present];
        (SHARING_MODE_CONCURRENT, indices)
    } else {
        let indices: Vec<u32> = Vec::new();
        (SHARING_MODE_EXCLUSIVE, indices)
    };

    let old_swapchain_handle = match old_swapchain {
        None => NULL_HANDLE,
        Some(swapchain) => swapchain,
    };

    let info = SwapchainCreateInfo {
        min_image_count: image_count,
        image_format: properties.surface_format.format,
        image_color_space: properties.surface_format.color_space,
        image_extent: properties.extent,
        image_usage: IMAGE_USAGE_COLOR_ATTACHMENT,
        image_sharing_mode,
        queue_family_indices,
        pre_transform: capabilities.current_transform,
        composite_alpha: COMPOSITE_ALPHA_OPAQUE,
        present_mode: properties.present_mode,
        clipped: true,
        image_array_layers: 1,
        old_swapchain: old_swapchain_handle,
    };
    proof {
        lemma_create_info_fields(&info, support, properties, *queue_family, old_swapchain);
    }
    (properties, info)
}

/// The image count asks for one image more than the surface's minimum, never exceeds the
/// surface's maximum where it has one, and reaches at least the minimum whenever the
/// limits allow it.
pub proof fn lemma_image_count_within_limits(capabilities: SurfaceCapabilities)
    requires
        capabilities.min_image_count < u32::MAX,
    ensures
        ({
            let count = spec_image_count(capabilities);
            let min = capabilities.min_image_count;
            let max = capabilities.max_image_count;
            &&& 1 <= count <= min + 1
            &&& max > 0 ==> count <= max
            &&& (max == 0 || min < max) ==> count == min + 1
            &&& (max == 0 || min <= max) ==> count >= min
        }),
{
}

/// The images are shared concurrently exactly when two distinct families are listed,
/// and owned exclusively exactly when none is.
pub proof fn lemma_sharing_mode_matches_families(queue_family: QueueFamilyIndices)
    requires
        families_known_when_shared(queue_family),
    ensures
        spec_sharing_mode(queue_family) == SHARING_MODE_CONCURRENT <==> spec_sharing_families(
            queue_family,
        ).len() == 2,
        spec_sharing_mode(queue_family) == SHARING_MODE_EXCLUSIVE <==> spec_sharing_families(
            queue_family,
        ).len() == 0,
        spec_sharing_families(queue_family).len() == 2 ==> spec_sharing_families(queue_family)[0]
            != spec_sharing_families(queue_family)[1],
{
}

/// What a planned create info holds, field by field, in terms of the support, the chosen
/// properties, the queue families and the replaced swapchain: the composite alpha is
/// always opaque whatever the surface supports, the images are color attachments of one
/// layer, clipping is on, the transform is the surface's current one; one image more than
/// the minimum unless that exceeds a non-zero maximum, which is then taken; concurrent
/// sharing between the two families when they differ, exclusive ownership otherwise; the
/// replaced swapchain or the null handle.
pub proof fn lemma_create_info_fields(
    info: &SwapchainCreateInfo,
    support: &SwapChainSupportDetail,
    properties: SwapchainProperties,
    queue_family: QueueFamilyIndices,
    old_swapchain: Option<u64>,
)
    requires
        create_info_matches(*info, support, properties, queue_family, old_swapchain),
        support.capabilities.min_image_count < u32::MAX,
    ensures
        info.composite_alpha == COMPOSITE_ALPHA_OPAQUE,
        info.image_usage == IMAGE_USAGE_COLOR_ATTACHMENT,
        info.clipped,
        info.image_array_layers == 1,
        info.pre_transform == support.capabilities.current_transform,
        info.image_format == properties.surface_format.format,
        info.image_color_space == properties.surface_format.color_space,
        info.image_extent == properties.extent,
        info.present_mode == properties.present_mode,
        support.capabilities.max_image_count == 0 || support.capabilities.min_image_count
            < support.capabilities.max_image_count ==> info.min_image_count
            == support.capabilities.min_image_count + 1,
        support.capabilities.max_image_count > 0 && support.capabilities.min_image_count
            >= support.capabilities.max_image_count ==> info.min_image_count
            == support.capabilities.max_image_count,
        queue_family.graphics_family != queue_family.present_family ==> {
            &&& info.image_sharing_mode == SHARING_MODE_CONCURRENT
            &&& info.queue_family_indices@ == seq![
                queue_family.graphics_family.unwrap(),
                queue_family.present_family.unwrap(),
            ]
        },
        queue_family.graphics_family == queue_family.present_family ==> {
            &&& info.image_sharing_mode == SHARING_MODE_EXCLUSIVE
            &&& info.queue_family_indices@.len() == 0
        },
        old_swapchain is None ==> info.old_swapchain == NULL_HANDLE,
        old_swapchain matches Some(s) ==> info.old_swapchain == s,
{
}

} // verus!
