//! Choosing the swapchain's surface format, present mode and extent from what the
//! surface supports.

use vstd::prelude::*;
use crate::types::{
    Extent2D, SurfaceCapabilities, SurfaceFormat, COLOR_SPACE_SRGB_NONLINEAR,
    FORMAT_B8G8R8A8_SRGB, PRESENT_MODE_FIFO, PRESENT_MODE_IMMEDIATE, PRESENT_MODE_MAILBOX,
};

verus! {

/// The surface format the renderer prefers: 8-bit BGRA in the sRGB nonlinear color space.
pub open spec fn preferred_surface_format() -> SurfaceFormat {
    SurfaceFormat { format: FORMAT_B8G8R8A8_SRGB, color_space: COLOR_SPACE_SRGB_NONLINEAR }
}

/// The format chosen among `available`: the preferred one where offered, else the first.
pub open spec fn spec_choose_format(available: Seq<SurfaceFormat>) -> SurfaceFormat {
    if available.contains(preferred_surface_format()) {
        preferred_surface_format()
    } else {
        available[0]
    }
}

/// The present mode chosen among `available`: mailbox where offered, else immediate
/// where offered, else FIFO (which every surface supports).
pub open spec fn spec_choose_present_mode(available: Seq<i32>) -> i32 {
    if available.contains(PRESENT_MODE_MAILBOX) {
        PRESENT_MODE_MAILBOX
    } else if available.contains(PRESENT_MODE_IMMEDIATE) {
        PRESENT_MODE_IMMEDIATE
    } else {
        PRESENT_MODE_FIFO
    }
}

/// `value` brought into `[min, max]`.
pub open spec fn spec_clamp(value: u32, min: u32, max: u32) -> u32 {
    if value < min {
        min
    } else if value > max {
        max
    } else {
        value
    }
}

/// The surface lets the swapchain decide its extent (`current_extent.width` is `u32::MAX`).
pub open spec fn extent_is_free(capabilities: SurfaceCapabilities) -> bool {
    capabilities.current_extent.width == u32::MAX
}

/// The extent can be clamped without contradiction: where the swapchain decides the
/// extent, each minimum is at most the matching maximum.
pub open spec fn extent_bounds_ordered(capabilities: SurfaceCapabilities) -> bool {
    extent_is_free(capabilities) ==> {
        &&& capabilities.min_image_extent.width <= capabilities.max_image_extent.width
        &&& capabilities.min_image_extent.height <= capabilities.max_image_extent.height
    }
}

/// The extent chosen: the surface's current extent when it fixes one, else the preferred
/// dimensions clamped into the surface's limits.
pub open spec fn spec_choose_extent(capabilities: SurfaceCapabilities, preferred: [u32; 2]) -> Extent2D {
    if !extent_is_free(capabilities) {
        capabilities.current_extent
    } else {
        Extent2D {
            width: spec_clamp(
                preferred[0],
                capabilities.min_image_extent.width,
                capabilities.max_image_extent.width,
            ),
            height: spec_clamp(
                preferred[1],
                capabilities.min_image_extent.height,
                capabilities.max_image_extent.height,
            ),
        }
    }
}

/// `num::clamp` on `u32`. Its source returns `min` below the range, `max` above it and
/// the value itself inside; it panics in debug builds when `min > max`, so that input is
/// left out.
#[verifier::external_body]
fn clamp_u32(input: u32, min: u32, max: u32) -> (r: u32)
    requires
        min <= max,
    ensures
        r == spec_clamp(input, min, max),
{
    num::clamp(input, min, max)
}

/// What the swapchain is configured with.
#[derive(Clone, Copy, Debug, PartialEq, Eq, Structural)]
pub struct SwapchainProperties {
    pub surface_format: SurfaceFormat,
    pub present_mode: i32,
    pub extent: Extent2D,
}

/// What a surface supports, as queried from the physical device.
pub struct SwapChainSupportDetail {
    pub capabilities: SurfaceCapabilities,
    pub surface_formats: Vec<SurfaceFormat>,
    pub present_modes: Vec<i32>,
}

impl SwapChainSupportDetail {
    /// The support can be turned into swapchain properties: at least one surface format
    /// is offered and the extent limits are ordered.
    pub open spec fn choosable(&self) -> bool {
        &&& self.surface_formats.len() > 0
        &&& extent_bounds_ordered(self.capabilities)
    }

    /// The properties chosen from this support for the given window dimensions.
    pub open spec fn spec_ideal_properties(&self, preferred_dimensions: [u32; 2]) -> SwapchainProperties {
        SwapchainProperties {
            surface_format: spec_choose_format(self.surface_formats@),
            present_mode: spec_choose_present_mode(self.present_modes@),
            extent: spec_choose_extent(self.capabilities, preferred_dimensions),
        }
    }

    /// Gathers what was queried of the surface: its capabilities, formats and present modes.
    pub fn new(
        capabilities: SurfaceCapabilities,
        surface_formats: Vec<SurfaceFormat>,
        present_modes: Vec<i32>,
    ) -> (r: SwapChainSupportDetail)
        ensures
            r.capabilities == capabilities,
            r.surface_formats@ == surface_formats@,
            r.present_modes@ == present_modes@,
    {
        SwapChainSupportDetail { capabilities, surface_formats, present_modes }
    }

    /// Chooses the surface format, the present mode and the extent for a window of
    /// `preferred_dimensions` (width, height).
    pub fn get_ideal_swapchain_properties(&self, preferred_dimensions: [u32; 2]) -> (r:
        SwapchainProperties)
        requires
            self.choosable(),
        ensures
            r == self.spec_ideal_properties(preferred_dimensions),
            r.surface_format == spec_choose_format(self.surface_formats@),
            r.present_mode == spec_choose_present_mode(self.present_modes@),
            r.extent == spec_choose_extent(self.capabilities, preferred_dimensions),
    {
        let format = Self::choose_swapchain_format(&self.surface_formats);
        let present_mode = Self::choose_swapchain_present_mode(self.present_modes.as_slice());
        let extent = Self::choose_swapchain_extent(&self.capabilities, preferred_dimensions);
        SwapchainProperties { surface_format: format, present_mode, extent }
    }

    /// Picks the preferred surface format if the surface offers it, else the first one offered.
    pub fn choose_swapchain_format(available_formats: &Vec<SurfaceFormat>) -> (r: SurfaceFormat)
        requires
            available_formats.len() > 0,
        ensures
            r == spec_choose_format(available_formats@),
            available_formats@.contains(r),
            (exists|i: int|
                0 <= i < available_formats.len() && #[trigger] available_formats@[i].format
                    == FORMAT_B8G8R8A8_SRGB && available_formats@[i].color_space
                    == COLOR_SPACE_SRGB_NONLINEAR) ==> r.format == FORMAT_B8G8R8A8_SRGB
                && r.color_space == COLOR_SPACE_SRGB_NONLINEAR,
            !(exists|i: int|
                0 <= i < available_formats.len() && #[trigger] available_formats@[i].format
                    == FORMAT_B8G8R8A8_SRGB && available_formats@[i].color_space
                    == COLOR_SPACE_SRGB_NONLINEAR) ==> r == available_formats@[0],
    {
        let n = available_formats.len();
        let mut i: usize = 0;
        while i < n
            invariant
                n == available_formats.len(),
                i <= n,
                forall|j: int| 0 <= j < i ==> available_formats@[j] != preferred_surface_format(),
            decreases n - i,
        {
            let f = available_formats[i];
            if f.format == FORMAT_B8G8R8A8_SRGB && f.color_space == COLOR_SPACE_SRGB_NONLINEAR {
                assert(available_formats@.contains(preferred_surface_format()));
                return f;
            }
            i = i + 1;
        }
        assert(!available_formats@.contains(preferred_surface_format()));
        available_formats[0]
    }

    /// Picks mailbox if offered, else immediate if offered, else FIFO.
    pub fn choose_swapchain_present_mode(available_present_modes: &[i32]) -> (r: i32)
        ensures
            r == spec_choose_present_mode(available_present_modes@),
            available_present_modes@.contains(PRESENT_MODE_MAILBOX) ==> r == PRESENT_MODE_MAILBOX,
            !available_present_modes@.contains(PRESENT_MODE_MAILBOX)
                && available_present_modes@.contains(PRESENT_MODE_IMMEDIATE) ==> r
                == PRESENT_MODE_IMMEDIATE,
            !available_present_modes@.contains(PRESENT_MODE_MAILBOX)
                && !available_present_modes@.contains(PRESENT_MODE_IMMEDIATE) ==> r
                == PRESENT_MODE_FIFO,
    {
        let mut best_mode = PRESENT_MODE_FIFO;
        let n = available_present_modes.len();
        let mut i: usize = 0;
        while i < n
            invariant
                n == available_present_modes@.len(),
                i <= n,
                forall|j: int| 0 <= j < i ==> available_present_modes@[j] != PRESENT_MODE_MAILBOX,
                (exists|j: int| 0 <= j < i && available_present_modes@[j] == PRESENT_MODE_IMMEDIATE)
                    ==> best_mode == PRESENT_MODE_IMMEDIATE,
                !(exists|j: int| 0 <= j < i && available_present_modes@[j] == PRESENT_MODE_IMMEDIATE)
                    ==> best_mode == PRESENT_MODE_FIFO,
            decreases n - i,
        {
            let mode = available_present_modes[i];
            if mode == PRESENT_MODE_MAILBOX {
                assert(available_present_modes@.contains(PRESENT_MODE_MAILBOX));
                return mode;
            } else if mode == PRESENT_MODE_IMMEDIATE {
                best_mode = PRESENT_MODE_IMMEDIATE;
            }
            i = i + 1;
        }
        best_mode
    }

    /// The surface's current extent when it fixes one, else the preferred dimensions
    /// clamped into the surface's minimum and maximum extent.
    pub fn choose_swapchain_extent(
        capabilities: &SurfaceCapabilities,
        preferred_dimensions: [u32; 2],
    ) -> (r: Extent2D)
        requires
            extent_bounds_ordered(*capabilities),
        ensures
            r == spec_choose_extent(*capabilities, preferred_dimensions),
            capabilities.current_extent.width != u32::MAX ==> r == capabilities.current_extent,
            capabilities.current_extent.width == u32::MAX ==> {
                &&& capabilities.min_image_extent.width <= r.width
                    <= capabilities.max_image_extent.width
                &&& capabilities.min_image_extent.height <= r.height
                    <= capabilities.max_image_extent.height
                &&& preferred_dimensions[0] < capabilities.min_image_extent.width ==> r.width
                    == capabilities.min_image_extent.width
                &&& preferred_dimensions[0] > capabilities.max_image_extent.width ==> r.width
                    == capabilities.max_image_extent.width
                &&& capabilities.min_image_extent.width <= preferred_dimensions[0]
                    <= capabilities.max_image_extent.width ==> r.width == preferred_dimensions[0]
                &&& preferred_dimensions[1] < capabilities.min_image_extent.height ==> r.height
                    == capabilities.min_image_extent.height
                &&& preferred_dimensions[1] > capabilities.max_image_extent.height ==> r.height
                    == capabilities.max_image_extent.height
                &&& capabilities.min_image_extent.height <= preferred_dimensions[1]
                    <= capabilities.max_image_extent.height ==> r.height == preferred_dimensions[1]
            },
    {
        if capabilities.current_extent.width != u32::MAX {
            capabilities.current_extent
        } else {
            let width = preferred_dimensions[0];
            let height = preferred_dimensions[1];
            Extent2D {
                width: clamp_u32(
                    width,
                    capabilities.min_image_extent.width,
                    capabilities.max_image_extent.width,
                ),
                height: clamp_u32(
                    height,
                    capabilities.min_image_extent.height,
                    capabilities.max_image_extent.height,
                ),
            }
        }
    }
}

/// The chosen surface format is one the surface offers; it is 8-bit BGRA sRGB in the
/// sRGB nonlinear color space whenever the surface offers that pair, wherever it is
/// listed, and otherwise the first format listed.
pub proof fn lemma_chosen_format_is_offered(available: Seq<SurfaceFormat>)
    requires
        available.len() > 0,
    ensures
        available.contains(spec_choose_format(available)),
        available.contains(preferred_surface_format()) ==> spec_choose_format(available)
            == preferred_surface_format(),
        forall|i: int|
            0 <= i < available.len() && #[trigger] available[i].format == FORMAT_B8G8R8A8_SRGB
                && available[i].color_space == COLOR_SPACE_SRGB_NONLINEAR ==> spec_choose_format(
                available,
            ).format == FORMAT_B8G8R8A8_SRGB && spec_choose_format(available).color_space
                == COLOR_SPACE_SRGB_NONLINEAR,
        (forall|i: int|
            0 <= i < available.len() ==> !(#[trigger] available[i].format == FORMAT_B8G8R8A8_SRGB
                && available[i].color_space == COLOR_SPACE_SRGB_NONLINEAR)) ==> spec_choose_format(
            available,
        ) == available[0],
{
    assert forall|i: int|
        0 <= i < available.len() && #[trigger] available[i].format == FORMAT_B8G8R8A8_SRGB
            && available[i].color_space == COLOR_SPACE_SRGB_NONLINEAR implies spec_choose_format(
            available,
        ).format == FORMAT_B8G8R8A8_SRGB && spec_choose_format(available).color_space
            == COLOR_SPACE_SRGB_NONLINEAR by {
        assert(available[i] == preferred_surface_format());
        assert(available.contains(preferred_surface_format()));
    }
    if !available.contains(preferred_surface_format()) {
        assert(available[0] == spec_choose_format(available));
    } else {
        let k = choose|k: int| 0 <= k < available.len() && available[k] == preferred_surface_format();
        assert(available[k].format == FORMAT_B8G8R8A8_SRGB);
    }
}

/// The chosen present mode is mailbox, immediate or FIFO; it is one the surface offers,
/// or FIFO, which every surface supports.
pub proof fn lemma_chosen_present_mode_is_supported(available: Seq<i32>)
    ensures
        ({
            let mode = spec_choose_present_mode(available);
            &&& mode == PRESENT_MODE_MAILBOX || mode == PRESENT_MODE_IMMEDIATE || mode
                == PRESENT_MODE_FIFO
            &&& available.contains(mode) || mode == PRESENT_MODE_FIFO
            &&& available.contains(PRESENT_MODE_MAILBOX) ==> mode == PRESENT_MODE_MAILBOX
            &&& !available.contains(PRESENT_MODE_MAILBOX) && available.contains(
                PRESENT_MODE_IMMEDIATE,
            ) ==> mode == PRESENT_MODE_IMMEDIATE
            &&& !available.contains(PRESENT_MODE_MAILBOX) && !available.contains(
                PRESENT_MODE_IMMEDIATE,
            ) ==> mode == PRESENT_MODE_FIFO
        }),
{
}

/// The present mode depends only on which modes are offered, not on their order or
/// repetition: two lists that agree on offering mailbox and immediate give the same mode,
/// and adding a mode other than mailbox and immediate changes nothing.
pub proof fn lemma_present_mode_ignores_order(a: Seq<i32>, b: Seq<i32>, other: i32)
    requires
        a.contains(PRESENT_MODE_MAILBOX) == b.contains(PRESENT_MODE_MAILBOX),
        a.contains(PRESENT_MODE_IMMEDIATE) == b.contains(PRESENT_MODE_IMMEDIATE),
        other != PRESENT_MODE_MAILBOX,
        other != PRESENT_MODE_IMMEDIATE,
    ensures
        spec_choose_present_mode(a) == spec_choose_present_mode(b),
        spec_choose_present_mode(a.push(other)) == spec_choose_present_mode(a),
        spec_choose_present_mode(seq![other].add(a)) == spec_choose_present_mode(a),
        spec_choose_present_mode(a.reverse()) == spec_choose_present_mode(a),
{
    lemma_chosen_present_mode_is_supported(a);
    lemma_chosen_present_mode_is_supported(b);
    let p = a.push(other);
    let q = seq![other].add(a);
    let r = a.reverse();
    assert forall|m: i32| m != other implies (#[trigger] p.contains(m) <==> a.contains(m)) by {
        if p.contains(m) {
            let k = choose|k: int| 0 <= k < p.len() && p[k] == m;
            assert(a[k] == m);
        }
        if a.contains(m) {
            let k = choose|k: int| 0 <= k < a.len() && a[k] == m;
            assert(p[k] == m);
        }
    }
    assert forall|m: i32| m != other implies (#[trigger] q.contains(m) <==> a.contains(m)) by {
        if q.contains(m) {
            let k = choose|k: int| 0 <= k < q.len() && q[k] == m;
            assert(a[k - 1] == m);
        }
        if a.contains(m) {
            let k = choose|k: int| 0 <= k < a.len() && a[k] == m;
            assert(q[k + 1] == m);
        }
    }
    assert forall|m: i32| (#[trigger] r.contains(m) <==> a.contains(m)) by {
        if r.contains(m) {
            let k = choose|k: int| 0 <= k < r.len() && r[k] == m;
            assert(a[a.len() - 1 - k] == m);
        }
        if a.contains(m) {
            let k = choose|k: int| 0 <= k < a.len() && a[k] == m;
            assert(r[a.len() - 1 - k] == m);
        }
    }
    lemma_chosen_present_mode_is_supported(p);
    lemma_chosen_present_mode_is_supported(q);
    lemma_chosen_present_mode_is_supported(r);
}

/// The chosen extent is the surface's current extent when the surface fixes one, and
/// otherwise lies within the surface's minimum and maximum extent; preferred dimensions
/// already within those limits are kept.
pub proof fn lemma_chosen_extent_within_limits(capabilities: SurfaceCapabilities, preferred: [u32; 2])
    requires
        extent_bounds_ordered(capabilities),
    ensures
        ({
            let e = spec_choose_extent(capabilities, preferred);
            &&& !extent_is_free(capabilities) ==> e == capabilities.current_extent
            &&& extent_is_free(capabilities) ==> {
                &&& capabilities.min_image_extent.width <= e.width
                    <= capabilities.max_image_extent.width
                &&& capabilities.min_image_extent.height <= e.height
                    <= capabilities.max_image_extent.height
                &&& capabilities.min_image_extent.width <= preferred[0]
                    <= capabilities.max_image_extent.width ==> e.width == preferred[0]
                &&& capabilities.min_image_extent.height <= preferred[1]
                    <= capabilities.max_image_extent.height ==> e.height == preferred[1]
            }
        }),
{
}

} // verus!
