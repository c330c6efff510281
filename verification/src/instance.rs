//! The Vulkan instance: the layers and extensions it is configured with,
//! whether presenting to surfaces is enabled, and the versions and layers
//! it is created with.

use vstd::prelude::*;
use crate::device::has_name;
use crate::device::extensions_available;

verus! {

/// A layer the Vulkan loader offers.
pub struct Layer<'a> {
    pub name: &'a str,
    pub spec_version: u32,
    pub implementation_version: u32,
    pub description: &'a str,
}

/// An instance extension the Vulkan loader offers.
pub struct Extension<'a> {
    pub name: &'a str,
    pub spec_version: u32,
}

/// What the instance is to be created with.
pub struct InstanceConfig {
    pub app_name: String,
    pub app_version: u32,
    pub layers: Vec<String>,
    pub extensions: Vec<String>,
}

/// A Vulkan version number: major, minor and patch packed into 10, 10 and
/// 12 bits.
pub open spec fn spec_make_version(major: u32, minor: u32, patch: u32) -> u32 {
    ((major << 22u32) | (minor << 12u32) | patch) as u32
}

pub fn make_version(major: u32, minor: u32, patch: u32) -> (r: u32)
    ensures
        r == spec_make_version(major, minor, patch),
{
    (major << 22u32) | (minor << 12u32) | patch
}

/// The extensions presenting to surfaces needs: the surface extension and
/// the platform's surface extension.
pub fn surface_extension_names() -> (r: Vec<String>)
    ensures
        r@.len() == 2,
        r@[0]@ == "VK_KHR_surface"@,
        r@[1]@ == "VK_KHR_xlib_surface"@,
{
    let mut r: Vec<String> = Vec::new();
    r.push("VK_KHR_surface".to_owned());
    r.push("VK_KHR_xlib_surface".to_owned());
    r
}

/// Whether an instance with these extensions can present to surfaces: it
/// has every surface extension.
pub fn surface_enabled(config_extensions: &Vec<String>, surface_extensions: &Vec<String>) -> (r: bool)
    ensures
        r == forall|i: int| 0 <= i < surface_extensions@.len()
            ==> has_name(config_extensions@, (#[trigger] surface_extensions@[i])@),
{
    extensions_available(surface_extensions, config_extensions)
}

/// What an instance is created with: the application name and version
/// from its configuration, the engine name and version, the API version,
/// the validation layer (debugging is always on), and whether surfaces
/// are enabled.
pub struct InstancePlan {
    pub app_name: String,
    pub app_version: u32,
    pub engine_name: String,
    pub engine_version: u32,
    pub api_version: u32,
    pub layers: Vec<String>,
    pub surface_enabled: bool,
}

pub fn instance_plan(config: InstanceConfig, surface_extensions: &Vec<String>) -> (r: InstancePlan)
    ensures
        r.app_name@ == config.app_name@,
        r.app_version == config.app_version,
        r.engine_name@ == "render-hal-vk"@,
        r.engine_version == spec_make_version(1, 0, 0),
        r.api_version == spec_make_version(1, 0, 36),
        r.layers@.len() == 1,
        r.layers@[0]@ == "VK_LAYER_LUNARG_standard_validation"@,
        r.surface_enabled == forall|i: int| 0 <= i < surface_extensions@.len()
            ==> has_name(config.extensions@, (#[trigger] surface_extensions@[i])@),
{
    let enabled = surface_enabled(&config.extensions, surface_extensions);
    let mut layers: Vec<String> = Vec::new();
    layers.push("VK_LAYER_LUNARG_standard_validation".to_owned());
    InstancePlan {
        app_name: config.app_name,
        app_version: config.app_version,
        engine_name: "render-hal-vk".to_owned(),
        engine_version: make_version(1, 0, 0),
        api_version: make_version(1, 0, 36),
        layers,
        surface_enabled: enabled,
    }
}

} // verus!
