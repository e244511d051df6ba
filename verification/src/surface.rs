use vstd::prelude::*;

verus! {

/// `VK_FORMAT_B8G8R8A8_UNORM`.
pub const FORMAT_B8G8R8A8_UNORM: i32 = 44;

/// `VK_COLOR_SPACE_SRGB_NONLINEAR_KHR`.
pub const COLOR_SPACE_SRGB_NONLINEAR: i32 = 0;

/// Width of a surface's `current_extent` that means "the size is decided by
/// the swapchain".
pub const EXTENT_DECIDED_BY_SWAPCHAIN: u32 = 0xFFFF_FFFF;

/// `ash::vk::SurfaceKHR`: a presentation surface handle.
#[verifier::external_type_specification]
#[verifier::external_body]
pub struct ExSurfaceKhr(ash::vk::SurfaceKHR);

/// Width and height of an image or window, in pixels (`VkExtent2D`).
#[derive(Clone, Copy, Debug, PartialEq, Eq, Structural)]
pub struct Extent2D {
    pub width: u32,
    pub height: u32,
}

/// A pixel format with its color space (`VkSurfaceFormatKHR`), both by their
/// Vulkan numbers.
#[derive(Clone, Copy, Debug, PartialEq, Eq, Structural)]
pub struct SurfaceFormat {
    pub format: i32,
    pub color_space: i32,
}

/// What a surface supports (`VkSurfaceCapabilitiesKHR`), the parts the
/// renderer reads.
#[derive(Clone, Copy, Debug, PartialEq, Eq, Structural)]
pub struct SurfaceCapabilities {
    pub min_image_count: u32,
    /// 0 when there is no maximum.
    pub max_image_count: u32,
    pub current_extent: Extent2D,
    pub min_image_extent: Extent2D,
    pub max_image_extent: Extent2D,
    /// `VkSurfaceTransformFlagBitsKHR` bits of the current transform.
    pub current_transform: u32,
}

/// The presentation surface of the window and the choices made for it.
pub struct MySurface {
    pub inner: ash::vk::SurfaceKHR,
    pub capabilities: SurfaceCapabilities,
    pub format: SurfaceFormat,
    /// Number of swapchain images to ask for.
    pub image_count: usize,
    /// `VkPresentModeKHR` numbers the surface supports.
    pub v_present_modes: Vec<i32>,
}

/// The renderer draws in 8-bit BGRA with the sRGB color space.
pub open spec fn is_wanted_format(format: SurfaceFormat) -> bool {
    format.format == FORMAT_B8G8R8A8_UNORM && format.color_space == COLOR_SPACE_SRGB_NONLINEAR
}

/// The surface offers the wanted format.
pub open spec fn offers_wanted_format(formats: Seq<SurfaceFormat>) -> bool {
    exists|i: int| 0 <= i < formats.len() && #[trigger] is_wanted_format(formats[i])
}

/// One image more than the minimum, unless that exceeds a maximum.
pub open spec fn spec_image_count(capabilities: SurfaceCapabilities) -> nat {
    if capabilities.max_image_count > 0 && capabilities.min_image_count + 1
        > capabilities.max_image_count {
        capabilities.max_image_count as nat
    } else {
        (capabilities.min_image_count + 1) as nat
    }
}

/// `value` brought into `[min, max]`.
pub open spec fn spec_clamp(value: u32, min: u32, max: u32) -> u32 {
    if value < min {
        min
    } else if value > max {
        max
    } else {
        value
    }
}

/// The extent to draw in: the surface's own extent when it has one, else the
/// window's dimensions brought within what the surface accepts.
pub open spec fn spec_extent(capabilities: SurfaceCapabilities, window: Extent2D) -> Extent2D {
    if capabilities.current_extent.width != EXTENT_DECIDED_BY_SWAPCHAIN {
        capabilities.current_extent
    } else {
        Extent2D {
            width: spec_clamp(
                window.width,
                capabilities.min_image_extent.width,
                capabilities.max_image_extent.width,
            ),
            height: spec_clamp(
                window.height,
                capabilities.min_image_extent.height,
                capabilities.max_image_extent.height,
            ),
        }
    }
}

/// The extent can be worked out: either the surface fixes it, or its bounds
/// are ordered.
pub open spec fn extent_bounds_ordered(capabilities: SurfaceCapabilities) -> bool {
    capabilities.current_extent.width == EXTENT_DECIDED_BY_SWAPCHAIN ==> {
        &&& capabilities.min_image_extent.width <= capabilities.max_image_extent.width
        &&& capabilities.min_image_extent.height <= capabilities.max_image_extent.height
    }
}

/// `num::clamp` on `u32`: `min` when `value < min`, `max` when `value > max`,
/// else `value`. It asserts `min <= max` (in debug builds), so that is required.
#[verifier::external_body]
fn clamp_u32(value: u32, min: u32, max: u32) -> (r: u32)
    requires
        min <= max,
    ensures
        r == spec_clamp(value, min, max),
{
    num::clamp(value, min, max)
}

/// The number of swapchain images asked for is at least the surface's
/// minimum and, when the surface has a maximum, at most that maximum.
pub proof fn lemma_image_count_within_limits(capabilities: SurfaceCapabilities)
    requires
        capabilities.max_image_count == 0 || capabilities.min_image_count
            <= capabilities.max_image_count,
    ensures
        capabilities.min_image_count <= spec_image_count(capabilities),
        capabilities.max_image_count > 0 ==> spec_image_count(capabilities)
            <= capabilities.max_image_count,
{
}

/// The extent chosen for the swapchain is one the surface accepts: its own
/// extent, or dimensions within its minimum and maximum image extents.
pub proof fn lemma_extent_within_bounds(capabilities: SurfaceCapabilities, window: Extent2D)
    requires
        extent_bounds_ordered(capabilities),
    ensures
        capabilities.current_extent.width != EXTENT_DECIDED_BY_SWAPCHAIN ==> spec_extent(
            capabilities,
            window,
        ) == capabilities.current_extent,
        capabilities.current_extent.width == EXTENT_DECIDED_BY_SWAPCHAIN ==> {
            let extent = spec_extent(capabilities, window);
            &&& capabilities.min_image_extent.width <= extent.width
                <= capabilities.max_image_extent.width
            &&& capabilities.min_image_extent.height <= extent.height
                <= capabilities.max_image_extent.height
        },
{
}

/// The image count is one more than the surface's minimum whenever the
/// maximum allows it (or there is no maximum), and the maximum otherwise.
pub proof fn lemma_image_count_is_one_above_minimum(capabilities: SurfaceCapabilities)
    ensures
        capabilities.max_image_count == 0 ==> spec_image_count(capabilities)
            == capabilities.min_image_count + 1,
        capabilities.min_image_count + 1 <= capabilities.max_image_count ==> spec_image_count(
            capabilities,
        ) == capabilities.min_image_count + 1,
        0 < capabilities.max_image_count < capabilities.min_image_count + 1 ==> spec_image_count(
            capabilities,
        ) == capabilities.max_image_count,
{
}

/// When the surface leaves the extent to the swapchain, each dimension is the
/// window's own whenever it lies within the surface's bounds and the nearest
/// bound otherwise, whatever the surface reports as its current height.
pub proof fn lemma_extent_keeps_window_within_bounds(
    capabilities: SurfaceCapabilities,
    window: Extent2D,
)
    requires
        capabilities.current_extent.width == EXTENT_DECIDED_BY_SWAPCHAIN,
        extent_bounds_ordered(capabilities),
    ensures
        capabilities.min_image_extent.width <= window.width <= capabilities.max_image_extent.width
            ==> spec_extent(capabilities, window).width == window.width,
        window.width < capabilities.min_image_extent.width ==> spec_extent(capabilities, window).width
            == capabilities.min_image_extent.width,
        window.width > capabilities.max_image_extent.width ==> spec_extent(capabilities, window).width
            == capabilities.max_image_extent.width,
        capabilities.min_image_extent.height <= window.height
            <= capabilities.max_image_extent.height ==> spec_extent(capabilities, window).height
            == window.height,
        window.height < capabilities.min_image_extent.height ==> spec_extent(
            capabilities,
            window,
        ).height == capabilities.min_image_extent.height,
        window.height > capabilities.max_image_extent.height ==> spec_extent(
            capabilities,
            window,
        ).height == capabilities.max_image_extent.height,
{
}

impl MySurface {
    /// Configures the surface from what the device reports about it.
    ///
    /// Fails when the queue family cannot present to the surface; then the
    /// window's dimensions are left alone. Otherwise picks the BGRA sRGB
    /// format, one image more than the minimum (within the maximum), and sets
    /// the window's dimensions to the extent the swapchain will have.
    pub fn new(
        inner: ash::vk::SurfaceKHR,
        presentation_supported: bool,
        capabilities: SurfaceCapabilities,
        v_surface_formats: &Vec<SurfaceFormat>,
        v_present_modes: Vec<i32>,
        window_dimensions: &mut Extent2D,
    ) -> (r: Result<MySurface, &'static str>)
        requires
            presentation_supported ==> {
                &&& offers_wanted_format(v_surface_formats@)
                &&& capabilities.min_image_count < u32::MAX
                &&& extent_bounds_ordered(capabilities)
            },
        ensures
            !presentation_supported ==> {
                &&& r matches Err(message) && message@ == "Presentation not supported !"@
                &&& *final(window_dimensions) == *old(window_dimensions)
            },
            presentation_supported ==> {
                &&& r matches Ok(surface) && {
                    &&& surface.inner == inner
                    &&& surface.capabilities == capabilities
                    &&& is_wanted_format(surface.format)
                    &&& surface.image_count == spec_image_count(capabilities)
                    &&& capabilities.max_image_count == 0 ==> surface.image_count
                        == capabilities.min_image_count + 1
                    &&& capabilities.min_image_count + 1 <= capabilities.max_image_count
                        ==> surface.image_count == capabilities.min_image_count + 1
                    &&& 0 < capabilities.max_image_count < capabilities.min_image_count + 1
                        ==> surface.image_count == capabilities.max_image_count
                    &&& surface.v_present_modes@ == v_present_modes@
                }
                &&& *final(window_dimensions) == spec_extent(capabilities, *old(window_dimensions))
                &&& capabilities.current_extent.width != EXTENT_DECIDED_BY_SWAPCHAIN
                    ==> *final(window_dimensions) == capabilities.current_extent
                &&& capabilities.current_extent.width == EXTENT_DECIDED_BY_SWAPCHAIN ==> {
                    &&& capabilities.min_image_extent.width <= old(window_dimensions).width
                        <= capabilities.max_image_extent.width ==> final(window_dimensions).width
                        == old(window_dimensions).width
                    &&& old(window_dimensions).width < capabilities.min_image_extent.width
                        ==> final(window_dimensions).width == capabilities.min_image_extent.width
                    &&& old(window_dimensions).width > capabilities.max_image_extent.width
                        ==> final(window_dimensions).width == capabilities.max_image_extent.width
                    &&& capabilities.min_image_extent.height <= old(window_dimensions).height
                        <= capabilities.max_image_extent.height ==> final(window_dimensions).height
                        == old(window_dimensions).height
                    &&& old(window_dimensions).height < capabilities.min_image_extent.height
                        ==> final(window_dimensions).height == capabilities.min_image_extent.height
                    &&& old(window_dimensions).height > capabilities.max_image_extent.height
                        ==> final(window_dimensions).height == capabilities.max_image_extent.height
                }
            },
    {
        if !presentation_supported {
            return Err("Presentation not supported !");
        }
        let available_format = match Self::search_format(v_surface_formats) {
            Ok(format) => format,
            Err(_) => {
                proof {
                    let i = choose|i: int|
                        0 <= i < v_surface_formats@.len() && #[trigger] is_wanted_format(
                            v_surface_formats@[i],
                        );
                    assert(is_wanted_format(v_surface_formats@[i]));
                }
                return Err("Cannot find surface format");
            },
        };
        let image_count = if capabilities.max_image_count > 0 && capabilities.min_image_count + 1
            > capabilities.max_image_count {
            capabilities.max_image_count
        } else {
            capabilities.min_image_count + 1
        };
        *window_dimensions =
        if capabilities.current_extent.width != EXTENT_DECIDED_BY_SWAPCHAIN {
            capabilities.current_extent
        } else {
            Extent2D {
                width: clamp_u32(
                    window_dimensions.width,
                    capabilities.min_image_extent.width,
                    capabilities.max_image_extent.width,
                ),
                height: clamp_u32(
                    window_dimensions.height,
                    capabilities.min_image_extent.height,
                    capabilities.max_image_extent.height,
                ),
            }
        };
        Ok(
            MySurface {
                inner,
                capabilities,
                format: available_format,
                image_count: image_count as usize,
                v_present_modes,
            },
        )
    }

    /// The first format in the list that is 8-bit BGRA in the sRGB color space.
    pub fn search_format(v_surface_formats: &Vec<SurfaceFormat>) -> (r: Result<
        SurfaceFormat,
        &'static str,
    >)
        ensures
            r is Ok <==> offers_wanted_format(v_surface_formats@),
            r matches Ok(format) ==> format == (SurfaceFormat {
                format: FORMAT_B8G8R8A8_UNORM,
                color_space: COLOR_SPACE_SRGB_NONLINEAR,
            }),
            r matches Err(message) ==> message@ == "Cannot find surface format"@,
    {
        let mut i: usize = 0;
        while i < v_surface_formats.len()
            invariant
                i <= v_surface_formats@.len(),
                forall|j: int| 0 <= j < i ==> !#[trigger] is_wanted_format(v_surface_formats@[j]),
            decreases v_surface_formats@.len() - i,
        {
            let format = v_surface_formats[i];
            if format.format == FORMAT_B8G8R8A8_UNORM && format.color_space
                == COLOR_SPACE_SRGB_NONLINEAR {
                assert(is_wanted_format(v_surface_formats@[i as int]));
                return Ok(format);
            }
            i = i + 1;
        }
        Err("Cannot find surface format")
    }
}

} // verus!
