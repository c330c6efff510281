//! Surfaces: what the driver answers about presenting to a surface, and
//! the device extensions a swap chain needs.

use vstd::prelude::*;
use crate::vulkan;
use crate::errors::SurfaceError;

verus! {

/// Whether a queue family can present to a surface: on success, whether
/// the driver answered with a non-zero flag; otherwise the error the code
/// names.
pub fn surface_support_outcome(result: i32, supported: u32) -> (r: Result<bool, SurfaceError>)
    requires
        result == vulkan::RESULT_SUCCESS || SurfaceError::is_surface_code(result),
    ensures
        result == vulkan::RESULT_SUCCESS ==> r == Ok::<bool, SurfaceError>(supported > 0),
        result != vulkan::RESULT_SUCCESS ==> r == Err::<bool, SurfaceError>(SurfaceError::spec_from_vk_result(result)),
{
    if result == vulkan::RESULT_SUCCESS {
        Ok(supported > 0)
    } else {
        Err(SurfaceError::from_vk_result(result))
    }
}

/// The formats a surface supports, read in two calls (count, then
/// entries): the formats when both succeed, else the error of the first
/// call that failed.
pub fn surface_formats_outcome(count_result: i32, read_result: i32, formats: Vec<i32>) -> (r: Result<Vec<i32>, SurfaceError>)
    requires
        count_result == vulkan::RESULT_SUCCESS || SurfaceError::is_surface_code(count_result),
        count_result == vulkan::RESULT_SUCCESS ==> (read_result == vulkan::RESULT_SUCCESS || SurfaceError::is_surface_code(read_result)),
    ensures
        count_result != vulkan::RESULT_SUCCESS ==> r == Err::<Vec<i32>, SurfaceError>(SurfaceError::spec_from_vk_result(count_result)),
        count_result == vulkan::RESULT_SUCCESS && read_result != vulkan::RESULT_SUCCESS
            ==> r == Err::<Vec<i32>, SurfaceError>(SurfaceError::spec_from_vk_result(read_result)),
        count_result == vulkan::RESULT_SUCCESS && read_result == vulkan::RESULT_SUCCESS
            ==> (r matches Ok(f) && f@ == formats@),
{
    if count_result != vulkan::RESULT_SUCCESS {
        return Err(SurfaceError::from_vk_result(count_result));
    }
    if read_result != vulkan::RESULT_SUCCESS {
        return Err(SurfaceError::from_vk_result(read_result));
    }
    Ok(formats)
}

/// The device extensions a swap chain needs: the swap chain extension and
/// three maintenance extensions.
pub fn swap_chain_extension_names() -> (r: Vec<String>)
    ensures
        r@.len() == 4,
        r@[0]@ == "VK_KHR_swapchain"@,
        r@[1]@ == "VK_KHR_maintenance1"@,
        r@[2]@ == "VK_KHR_maintenance2"@,
        r@[3]@ == "VK_KHR_sampler_mirror_clamp_to_edge"@,
{
    let mut r: Vec<String> = Vec::new();
    r.push("VK_KHR_swapchain".to_owned());
    r.push("VK_KHR_maintenance1".to_owned());
    r.push("VK_KHR_maintenance2".to_owned());
    r.push("VK_KHR_sampler_mirror_clamp_to_edge".to_owned());
    r
}

} // verus!
