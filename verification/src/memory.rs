//! Choosing a memory type for an allocation and a format that the device supports.

use vstd::prelude::*;
use crate::error::DeviceError;
use crate::types::{
    flags_contain, FORMAT_D24_UNORM_S8_UINT, FORMAT_D32_SFLOAT, FORMAT_D32_SFLOAT_S8_UINT,
    IMAGE_TILING_LINEAR, IMAGE_TILING_OPTIMAL,
};

verus! {

/// One memory type of the physical device (`VkMemoryType`).
#[derive(Clone, Copy, Debug, PartialEq, Eq, Structural)]
pub struct MemoryType {
    pub property_flags: u32,
    pub heap_index: u32,
}

/// The memory types of the physical device (`VkPhysicalDeviceMemoryProperties`, types only).
pub struct MemoryProperties {
    /// How many entries of `memory_types` are valid.
    pub memory_type_count: u32,
    pub memory_types: Vec<MemoryType>,
}

/// What a resource needs of its memory (`VkMemoryRequirements`).
#[derive(Clone, Copy, Debug, PartialEq, Eq, Structural)]
pub struct MemoryRequirements {
    pub size: u64,
    pub alignment: u64,
    /// Bit `i` is set when memory type `i` may back the resource.
    pub memory_type_bits: u32,
}

/// What the device supports of a format (`VkFormatProperties`), flags held as raw bits.
#[derive(Clone, Copy, Debug, PartialEq, Eq, Structural)]
pub struct FormatProperties {
    pub linear_tiling_features: u32,
    pub optimal_tiling_features: u32,
    pub buffer_features: u32,
}

/// Memory type `index` may back a resource with `requirements` and has every property of `properties`.
pub open spec fn memory_type_suitable(
    memory_properties: &MemoryProperties,
    properties: u32,
    requirements: MemoryRequirements,
    index: u32,
) -> bool {
    &&& requirements.memory_type_bits & (1u32 << index) != 0
    &&& flags_contain(memory_properties.memory_types@[index as int].property_flags, properties)
}

/// The memory properties can be searched: the count of valid types fits in both the
/// type list and the 32 bits of a type mask.
pub open spec fn memory_properties_valid(memory_properties: &MemoryProperties) -> bool {
    &&& memory_properties.memory_type_count <= 32
    &&& memory_properties.memory_type_count <= memory_properties.memory_types.len()
}

/// Some valid memory type is suitable.
pub open spec fn has_suitable_memory_type(
    memory_properties: &MemoryProperties,
    properties: u32,
    requirements: MemoryRequirements,
) -> bool {
    exists|i: u32|
        i < memory_properties.memory_type_count && #[trigger] memory_type_suitable(
            memory_properties,
            properties,
            requirements,
            i,
        )
}

/// A format with properties `format_properties` has every feature of `features` in `tiling`.
pub open spec fn format_supports(format_properties: FormatProperties, tiling: i32, features: u32) -> bool {
    if tiling == IMAGE_TILING_LINEAR {
        flags_contain(format_properties.linear_tiling_features, features)
    } else if tiling == IMAGE_TILING_OPTIMAL {
        flags_contain(format_properties.optimal_tiling_features, features)
    } else {
        false
    }
}

/// The outcome of choosing among `candidates` (with their properties, in the same order):
/// the first candidate that supports `features` in `tiling`, else `Unsupported`.
pub open spec fn selection_matches(
    r: Result<i32, DeviceError>,
    candidates: Seq<i32>,
    properties: Seq<FormatProperties>,
    tiling: i32,
    features: u32,
) -> bool {
    match r {
        Ok(format) => exists|i: int|
            {
                &&& 0 <= i < candidates.len()
                &&& #[trigger] format_supports(properties[i], tiling, features)
                &&& format == candidates[i]
                &&& forall|j: int| 0 <= j < i ==> !format_supports(properties[j], tiling, features)
            },
        Err(e) => {
            &&& e == DeviceError::Unsupported
            &&& forall|j: int|
                0 <= j < candidates.len() ==> !#[trigger] format_supports(properties[j], tiling, features)
        },
    }
}

/// The depth formats the renderer accepts, most preferred first.
pub open spec fn spec_depth_format_candidates() -> Seq<i32> {
    seq![FORMAT_D32_SFLOAT, FORMAT_D32_SFLOAT_S8_UINT, FORMAT_D24_UNORM_S8_UINT]
}

/// The depth formats the renderer accepts, most preferred first.
pub fn depth_format_candidates() -> (r: Vec<i32>)
    ensures
        r@ == spec_depth_format_candidates(),
        r@ == seq![FORMAT_D32_SFLOAT, FORMAT_D32_SFLOAT_S8_UINT, FORMAT_D24_UNORM_S8_UINT],
{
    vec![FORMAT_D32_SFLOAT, FORMAT_D32_SFLOAT_S8_UINT, FORMAT_D24_UNORM_S8_UINT]
}

/// Chooses the first of `candidates` whose properties (same order) support `features` in
/// `tiling`; `Unsupported` when none does.
pub fn select_supported_format(
    candidates: &Vec<i32>,
    properties: &Vec<FormatProperties>,
    tiling: i32,
    features: u32,
) -> (r: Result<i32, DeviceError>)
    requires
        candidates.len() == properties.len(),
    ensures
        selection_matches(r, candidates@, properties@, tiling, features),
        r matches Ok(f) ==> exists|i: int|
            0 <= i < candidates.len() && f == candidates@[i] && ((tiling == IMAGE_TILING_LINEAR
                && (#[trigger] properties@[i]).linear_tiling_features & features == features) || (
            tiling == IMAGE_TILING_OPTIMAL && properties@[i].optimal_tiling_features & features
                == features)) && forall|j: int|
                0 <= j < i ==> !((tiling == IMAGE_TILING_LINEAR && (#[trigger] properties@[
                    j]).linear_tiling_features & features == features) || (tiling
                    == IMAGE_TILING_OPTIMAL && properties@[j].optimal_tiling_features & features
                    == features)),
        r is Err ==> forall|j: int|
            0 <= j < candidates.len() ==> !((tiling == IMAGE_TILING_LINEAR && (#[trigger] properties@[
                j]).linear_tiling_features & features == features) || (tiling == IMAGE_TILING_OPTIMAL
                && properties@[j].optimal_tiling_features & features == features)),
        r is Err ==> r == Err::<i32, DeviceError>(DeviceError::Unsupported),
{
    let n = candidates.len();
    let mut i: usize = 0;
    while i < n
        invariant
            n == candidates.len(),
            n == properties.len(),
            i <= n,
            forall|j: int| 0 <= j < i ==> !format_supports(properties@[j], tiling, features),
        decreases n - i,
    {
        let p = properties[i];
        let supported = if tiling == IMAGE_TILING_LINEAR {
            p.linear_tiling_features & features == features
        } else if tiling == IMAGE_TILING_OPTIMAL {
            p.optimal_tiling_features & features == features
        } else {
            false
        };
        if supported {
            assert(format_supports(properties@[i as int], tiling, features));
            proof {
                lemma_format_supports_all_features(properties@[i as int], tiling, features);
                assert forall|j: int| 0 <= j < i implies !((tiling == IMAGE_TILING_LINEAR && (
                #[trigger] properties@[j]).linear_tiling_features & features == features) || (tiling
                    == IMAGE_TILING_OPTIMAL && properties@[j].optimal_tiling_features & features
                    == features)) by {
                    lemma_format_supports_all_features(properties@[j], tiling, features);
                }
            }
            return Ok(candidates[i]);
        }
        i = i + 1;
    }
    proof {
        assert forall|j: int| 0 <= j < candidates.len() implies !((tiling == IMAGE_TILING_LINEAR && (
        #[trigger] properties@[j]).linear_tiling_features & features == features) || (tiling
            == IMAGE_TILING_OPTIMAL && properties@[j].optimal_tiling_features & features
            == features)) by {
            lemma_format_supports_all_features(properties@[j], tiling, features);
        }
    }
    Err(DeviceError::Unsupported)
}

/// A format supports what is asked exactly when its features in the asked tiling (linear
/// or optimal; no other tiling is supported) hold every requested feature bit; holding
/// some of them is not enough.
pub proof fn lemma_format_supports_all_features(
    format_properties: FormatProperties,
    tiling: i32,
    features: u32,
)
    ensures
        format_supports(format_properties, tiling, features) <==> ((tiling == IMAGE_TILING_LINEAR
            && format_properties.linear_tiling_features & features == features) || (tiling
            == IMAGE_TILING_OPTIMAL && format_properties.optimal_tiling_features & features
            == features)),
{
}

/// A memory type suits a resource exactly when the requirement bits allow its index and
/// its property flags hold every requested property (a type with no flags suits a request
/// for no properties).
pub proof fn lemma_memory_type_suitable_by_bits(
    memory_properties: &MemoryProperties,
    properties: u32,
    requirements: MemoryRequirements,
    index: u32,
)
    ensures
        memory_type_suitable(memory_properties, properties, requirements, index) <==> (
        requirements.memory_type_bits & (1u32 << index) != 0
            && memory_properties.memory_types@[index as int].property_flags & properties
            == properties),
{
}

/// The first supported candidate is chosen: whenever some candidate supports what is
/// asked, the choice succeeds, and it is never a candidate listed after a supported one.
pub proof fn lemma_selection_is_first_supported(
    r: Result<i32, DeviceError>,
    candidates: Seq<i32>,
    properties: Seq<FormatProperties>,
    tiling: i32,
    features: u32,
    k: int,
)
    requires
        selection_matches(r, candidates, properties, tiling, features),
        candidates.len() == properties.len(),
        0 <= k < candidates.len(),
        tiling == IMAGE_TILING_OPTIMAL,
        properties[k].optimal_tiling_features & features == features,
    ensures
        r is Ok,
        exists|i: int| 0 <= i <= k && r == Ok::<i32, DeviceError>(#[trigger] candidates[i]),
{
    lemma_format_supports_all_features(properties[k], tiling, features);
    if let Ok(f) = r {
        let i = choose|i: int|
            {
                &&& 0 <= i < candidates.len()
                &&& #[trigger] format_supports(properties[i], tiling, features)
                &&& f == candidates[i]
                &&& forall|j: int| 0 <= j < i ==> !format_supports(properties[j], tiling, features)
            };
        assert(i <= k);
        assert(r == Ok::<i32, DeviceError>(candidates[i]));
    }
}

} // verus!
