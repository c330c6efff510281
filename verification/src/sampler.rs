//! Sampler descriptions and their conversion into Vulkan sampler
//! creation parameters.

use vstd::prelude::*;
use crate::vulkan;
use crate::format::{RenderCompareFunc, get_compare_op, spec_get_compare_op, bool_to_vk};

verus! {

/// Texture addressing outside [0, 1].
#[derive(Clone, Copy, Debug, PartialEq, Eq, Structural)]
pub enum RenderSamplerAddressMode {
    Wrap,
    Mirror,
    MirrorOnce,
    Clamp,
    Border,
}

/// Border colors.
#[derive(Clone, Copy, Debug, PartialEq, Eq, Structural)]
pub enum RenderBorderColor {
    BlackA0,
    BlackA1,
    WhiteA1,
}

/// Texture filtering modes: nine base modes, each also in a minimum,
/// maximum and comparison reduction form.
#[derive(Clone, Copy, Debug, PartialEq, Eq, Structural)]
pub enum RenderSamplerFilter {
    MinMagMipPoint,
    MinimumMinMagMipPoint,
    MaximumMinMagMipPoint,
    ComparisonMinMagMipPoint,
    MinMagPointMipLinear,
    MinimumMinMagPointMipLinear,
    MaximumMinMagPointMipLinear,
    ComparisonMinMagPointMipLinear,
    MinPointMagLinearMipPoint,
    MinimumMinPointMagLinearMipPoint,
    MaximumMinPointMagLinearMipPoint,
    ComparisonMinPointMagLinearMipPoint,
    MinPointMagMipLinear,
    MinimumMinPointMagMipLinear,
    MaximumMinPointMagMipLinear,
    ComparisonMinPointMagMipLinear,
    MinLinearMagMipPoint,
    MinimumMinLinearMagMipPoint,
    MaximumMinLinearMagMipPoint,
    ComparisonMinLinearMagMipPoint,
    MinLinearMagPointMipLinear,
    MinimumMinLinearMagPointMipLinear,
    MaximumMinLinearMagPointMipLinear,
    ComparisonMinLinearMagPointMipLinear,
    MinMagLinearMipPoint,
    MinimumMinMagLinearMipPoint,
    MaximumMinMagLinearMipPoint,
    ComparisonMinMagLinearMipPoint,
    MinMagMipLinear,
    MinimumMinMagMipLinear,
    MaximumMinMagMipLinear,
    ComparisonMinMagMipLinear,
    Anisotropic,
    MinimumAnisotropic,
    MaximumAnisotropic,
    ComparisonAnisotropic,
}

/// Minification filter, magnification filter, mipmap mode and whether
/// anisotropic filtering is on, for each filter.
pub open spec fn spec_filter_modes(filter: RenderSamplerFilter) -> (i32, i32, i32, bool) {
    match filter {
        RenderSamplerFilter::MinMagMipPoint | RenderSamplerFilter::MinimumMinMagMipPoint | RenderSamplerFilter::MaximumMinMagMipPoint | RenderSamplerFilter::ComparisonMinMagMipPoint => (vulkan::FILTER_NEAREST, vulkan::FILTER_NEAREST, vulkan::SAMPLER_MIPMAP_MODE_NEAREST, false),
        RenderSamplerFilter::MinMagPointMipLinear | RenderSamplerFilter::MinimumMinMagPointMipLinear | RenderSamplerFilter::MaximumMinMagPointMipLinear | RenderSamplerFilter::ComparisonMinMagPointMipLinear => (vulkan::FILTER_NEAREST, vulkan::FILTER_NEAREST, vulkan::SAMPLER_MIPMAP_MODE_LINEAR, false),
        RenderSamplerFilter::MinPointMagLinearMipPoint | RenderSamplerFilter::MinimumMinPointMagLinearMipPoint | RenderSamplerFilter::MaximumMinPointMagLinearMipPoint | RenderSamplerFilter::ComparisonMinPointMagLinearMipPoint => (vulkan::FILTER_NEAREST, vulkan::FILTER_LINEAR, vulkan::SAMPLER_MIPMAP_MODE_NEAREST, false),
        RenderSamplerFilter::MinPointMagMipLinear | RenderSamplerFilter::MinimumMinPointMagMipLinear | RenderSamplerFilter::MaximumMinPointMagMipLinear | RenderSamplerFilter::ComparisonMinPointMagMipLinear => (vulkan::FILTER_NEAREST, vulkan::FILTER_LINEAR, vulkan::SAMPLER_MIPMAP_MODE_LINEAR, false),
        RenderSamplerFilter::MinLinearMagMipPoint | RenderSamplerFilter::MinimumMinLinearMagMipPoint | RenderSamplerFilter::MaximumMinLinearMagMipPoint | RenderSamplerFilter::ComparisonMinLinearMagMipPoint => (vulkan::FILTER_LINEAR, vulkan::FILTER_NEAREST, vulkan::SAMPLER_MIPMAP_MODE_NEAREST, false),
        RenderSamplerFilter::MinLinearMagPointMipLinear | RenderSamplerFilter::MinimumMinLinearMagPointMipLinear | RenderSamplerFilter::MaximumMinLinearMagPointMipLinear | RenderSamplerFilter::ComparisonMinLinearMagPointMipLinear => (vulkan::FILTER_LINEAR, vulkan::FILTER_NEAREST, vulkan::SAMPLER_MIPMAP_MODE_LINEAR, false),
        RenderSamplerFilter::MinMagLinearMipPoint | RenderSamplerFilter::MinimumMinMagLinearMipPoint | RenderSamplerFilter::MaximumMinMagLinearMipPoint | RenderSamplerFilter::ComparisonMinMagLinearMipPoint => (vulkan::FILTER_LINEAR, vulkan::FILTER_LINEAR, vulkan::SAMPLER_MIPMAP_MODE_NEAREST, false),
        RenderSamplerFilter::MinMagMipLinear | RenderSamplerFilter::MinimumMinMagMipLinear | RenderSamplerFilter::MaximumMinMagMipLinear | RenderSamplerFilter::ComparisonMinMagMipLinear => (vulkan::FILTER_LINEAR, vulkan::FILTER_LINEAR, vulkan::SAMPLER_MIPMAP_MODE_LINEAR, false),
        RenderSamplerFilter::Anisotropic | RenderSamplerFilter::MinimumAnisotropic | RenderSamplerFilter::MaximumAnisotropic | RenderSamplerFilter::ComparisonAnisotropic => (vulkan::FILTER_LINEAR, vulkan::FILTER_LINEAR, vulkan::SAMPLER_MIPMAP_MODE_LINEAR, true),
    }
}

/// Filters that compare against a reference value.
pub open spec fn spec_is_comparison_filter(filter: RenderSamplerFilter) -> bool {
    match filter {
        RenderSamplerFilter::ComparisonMinMagMipPoint | RenderSamplerFilter::ComparisonMinMagPointMipLinear | RenderSamplerFilter::ComparisonMinPointMagLinearMipPoint | RenderSamplerFilter::ComparisonMinPointMagMipLinear | RenderSamplerFilter::ComparisonMinLinearMagMipPoint | RenderSamplerFilter::ComparisonMinLinearMagPointMipLinear | RenderSamplerFilter::ComparisonMinMagLinearMipPoint | RenderSamplerFilter::ComparisonMinMagMipLinear | RenderSamplerFilter::ComparisonAnisotropic => true,
        _ => false,
    }
}

/// Filters that compare against a reference value.
#[verifier::when_used_as_spec(spec_is_comparison_filter)]
pub fn is_comparison_filter(filter: RenderSamplerFilter) -> (r: bool)
    ensures
        r == spec_is_comparison_filter(filter),
{
    match filter {
        RenderSamplerFilter::ComparisonMinMagMipPoint | RenderSamplerFilter::ComparisonMinMagPointMipLinear | RenderSamplerFilter::ComparisonMinPointMagLinearMipPoint | RenderSamplerFilter::ComparisonMinPointMagMipLinear | RenderSamplerFilter::ComparisonMinLinearMagMipPoint | RenderSamplerFilter::ComparisonMinLinearMagPointMipLinear | RenderSamplerFilter::ComparisonMinMagLinearMipPoint | RenderSamplerFilter::ComparisonMinMagMipLinear | RenderSamplerFilter::ComparisonAnisotropic => true,
        _ => false,
    }
}


/// Description of a sampler.
#[derive(Clone, Copy, Debug, PartialEq, Eq, Structural)]
pub struct RenderSamplerState {
    pub address_u: RenderSamplerAddressMode,
    pub address_v: RenderSamplerAddressMode,
    pub address_w: RenderSamplerAddressMode,
    pub filter: RenderSamplerFilter,
    pub min_mip: u32,
    pub max_mip: u32,
    pub max_aniso: u32,
    pub comparison: RenderCompareFunc,
    pub border_color: RenderBorderColor,
}

/// Parameters of `vkCreateSampler`. The level-of-detail bounds and the
/// anisotropy limit are whole numbers here; they become the floating-point
/// fields of the Vulkan structure unchanged. The mip bias is always zero.
#[derive(Clone, Copy, Debug, PartialEq, Eq, Structural)]
pub struct SamplerCreateInfo {
    pub address_mode_u: i32,
    pub address_mode_v: i32,
    pub address_mode_w: i32,
    pub min_lod: u32,
    pub max_lod: u32,
    pub unnormalized_coordinates: u32,
    pub min_filter: i32,
    pub mag_filter: i32,
    pub mipmap_mode: i32,
    pub anisotropy_enable: u32,
    pub max_anisotropy: u32,
    pub border_color: i32,
    pub compare_enable: u32,
    pub compare_op: i32,
}

pub open spec fn spec_address_mode(mode: RenderSamplerAddressMode) -> i32 {
    match mode {
        RenderSamplerAddressMode::Wrap => vulkan::SAMPLER_ADDRESS_MODE_REPEAT,
        RenderSamplerAddressMode::Mirror => vulkan::SAMPLER_ADDRESS_MODE_MIRRORED_REPEAT,
        RenderSamplerAddressMode::MirrorOnce => vulkan::SAMPLER_ADDRESS_MODE_MIRRORED_REPEAT,
        RenderSamplerAddressMode::Clamp => vulkan::SAMPLER_ADDRESS_MODE_CLAMP_TO_EDGE,
        RenderSamplerAddressMode::Border => vulkan::SAMPLER_ADDRESS_MODE_CLAMP_TO_BORDER,
    }
}

/// The texel an addressing mode reads for the integer texel coordinate `x`
/// of a row of `n` texels, or `None` for the border color: wrapping
/// repeats the row, mirroring repeats it reflected every other time,
/// mirroring once reflects it about its start and clamps, clamping holds
/// the edge texels, and the border mode reads the border outside the row.
pub open spec fn address_texel(mode: RenderSamplerAddressMode, x: int, n: int) -> Option<int> {
    match mode {
        RenderSamplerAddressMode::Wrap => Some(x % n),
        RenderSamplerAddressMode::Mirror => Some(
            if x % (2 * n) < n { x % (2 * n) } else { 2 * n - 1 - x % (2 * n) },
        ),
        RenderSamplerAddressMode::MirrorOnce => {
            let a = if x < 0 { -x - 1 } else { x };
            Some(if a < n { a } else { n - 1 })
        },
        RenderSamplerAddressMode::Clamp => Some(if x < 0 { 0 } else if x < n { x } else { n - 1 }),
        RenderSamplerAddressMode::Border => if 0 <= x < n { Some(x) } else { None },
    }
}

/// The texel a Vulkan addressing mode reads, by the numbers Vulkan gives its
/// addressing modes (repeat, mirrored repeat, clamp to edge, clamp to
/// border); `None` for a number that is not one of them.
pub open spec fn vk_address_texel(mode: int, x: int, n: int) -> Option<Option<int>> {
    if mode == 0 {
        Some(Some(x % n))
    } else if mode == 1 {
        Some(Some(if x % (2 * n) < n { x % (2 * n) } else { 2 * n - 1 - x % (2 * n) }))
    } else if mode == 2 {
        Some(Some(if x < 0 { 0 } else if x < n { x } else { n - 1 }))
    } else if mode == 3 {
        Some(if 0 <= x < n { Some(x) } else { None })
    } else {
        None
    }
}

/// An addressing mode becomes the Vulkan addressing mode that reads the
/// same texels: exactly so for wrapping, mirroring, clamping and the
/// border; mirroring once, which Vulkan has no plain mode for, becomes
/// mirrored repeat, which reads the same texels within one row on either
/// side of the start.
pub proof fn lemma_address_mode_meaning(mode: RenderSamplerAddressMode, x: int, n: int)
    requires
        n > 0,
    ensures
        mode != RenderSamplerAddressMode::MirrorOnce
            ==> vk_address_texel(spec_address_mode(mode) as int, x, n) == Some(address_texel(mode, x, n)),
        mode == RenderSamplerAddressMode::MirrorOnce && -n <= x < n
            ==> vk_address_texel(spec_address_mode(mode) as int, x, n) == Some(address_texel(mode, x, n)),
{
    if mode == RenderSamplerAddressMode::MirrorOnce && -n <= x < n {
        let m = 2 * n;
        if x < 0 {
            vstd::arithmetic::div_mod::lemma_mod_add_multiples_vanish(x, m);
            vstd::arithmetic::div_mod::lemma_small_mod((x + m) as nat, m as nat);
            assert(x % m == x + m);
        } else {
            vstd::arithmetic::div_mod::lemma_small_mod(x as nat, m as nat);
            assert(x % m == x);
        }
    }
}

/// Vulkan addressing mode; mirror-once has no exact equivalent and mirrors.
pub fn get_addressing_mode(mode: RenderSamplerAddressMode) -> (r: i32)
    ensures
        r == spec_address_mode(mode),
        forall|x: int, n: int| n > 0 && (mode != RenderSamplerAddressMode::MirrorOnce || -n <= x < n)
            ==> #[trigger] vk_address_texel(r as int, x, n) == Some(address_texel(mode, x, n)),
{
    proof {
        assert forall|x: int, n: int| n > 0 && (mode != RenderSamplerAddressMode::MirrorOnce || -n <= x < n)
            implies #[trigger] vk_address_texel(spec_address_mode(mode) as int, x, n) == Some(address_texel(mode, x, n)) by {
            lemma_address_mode_meaning(mode, x, n);
        }
    }
    match mode {
        RenderSamplerAddressMode::Wrap => vulkan::SAMPLER_ADDRESS_MODE_REPEAT,
        RenderSamplerAddressMode::Mirror => vulkan::SAMPLER_ADDRESS_MODE_MIRRORED_REPEAT,
        RenderSamplerAddressMode::MirrorOnce => vulkan::SAMPLER_ADDRESS_MODE_MIRRORED_REPEAT,
        RenderSamplerAddressMode::Clamp => vulkan::SAMPLER_ADDRESS_MODE_CLAMP_TO_EDGE,
        RenderSamplerAddressMode::Border => vulkan::SAMPLER_ADDRESS_MODE_CLAMP_TO_BORDER,
    }
}

pub open spec fn spec_border_color(color: RenderBorderColor) -> i32 {
    match color {
        RenderBorderColor::BlackA0 => vulkan::BORDER_COLOR_FLOAT_TRANSPARENT_BLACK,
        RenderBorderColor::BlackA1 => vulkan::BORDER_COLOR_FLOAT_OPAQUE_BLACK,
        RenderBorderColor::WhiteA1 => vulkan::BORDER_COLOR_FLOAT_OPAQUE_WHITE,
    }
}

/// `value` limited to `[min, max]`.
pub open spec fn spec_clamp(value: u32, min: u32, max: u32) -> u32 {
    if value < min { min } else if value > max { max } else { value }
}

/// `num_traits::clamp` on `u32`. Its source returns `min` below the range,
/// `max` above it and the input otherwise, and debug-asserts `min <= max`.
#[verifier::external_body]
fn clamp_u32(input: u32, min: u32, max: u32) -> (r: u32)
    requires
        min <= max,
    ensures
        r == spec_clamp(input, min, max),
{
    num_traits::clamp(input, min, max)
}

pub open spec fn spec_make_vulkan_sampler(desc: RenderSamplerState) -> SamplerCreateInfo {
    let (min_filter, mag_filter, mipmap_mode, anisotropic) = spec_filter_modes(desc.filter);
    SamplerCreateInfo {
        address_mode_u: spec_address_mode(desc.address_u),
        address_mode_v: spec_address_mode(desc.address_v),
        address_mode_w: spec_address_mode(desc.address_w),
        min_lod: spec_clamp(desc.min_mip, 0, 16),
        max_lod: spec_clamp(desc.max_mip, 0, 16),
        unnormalized_coordinates: vulkan::FALSE,
        min_filter,
        mag_filter,
        mipmap_mode,
        anisotropy_enable: if anisotropic { vulkan::TRUE } else { vulkan::FALSE },
        max_anisotropy: if anisotropic { spec_clamp(desc.max_aniso, 1, 16) } else { 1 },
        border_color: spec_border_color(desc.border_color),
        compare_enable: if spec_is_comparison_filter(desc.filter) { vulkan::TRUE } else { vulkan::FALSE },
        compare_op: spec_get_compare_op(desc.comparison),
    }
}

/// Sampler creation parameters of a sampler description.
pub fn make_vulkan_sampler(desc: &RenderSamplerState) -> (r: SamplerCreateInfo)
    ensures
        r == spec_make_vulkan_sampler(*desc),
        (r.compare_enable == vulkan::TRUE) == spec_is_comparison_filter(desc.filter),
        r.compare_enable == vulkan::TRUE || r.compare_enable == vulkan::FALSE,
        (r.anisotropy_enable == vulkan::TRUE) == (desc.filter == RenderSamplerFilter::Anisotropic
            || desc.filter == RenderSamplerFilter::MinimumAnisotropic
            || desc.filter == RenderSamplerFilter::MaximumAnisotropic
            || desc.filter == RenderSamplerFilter::ComparisonAnisotropic),
        1 <= r.max_anisotropy <= 16,
        r.anisotropy_enable == vulkan::TRUE ==> r.max_anisotropy == spec_clamp(desc.max_aniso, 1, 16),
        r.min_lod <= 16 && r.max_lod <= 16,
        desc.min_mip <= 16 ==> r.min_lod == desc.min_mip,
        desc.max_mip <= 16 ==> r.max_lod == desc.max_mip,
        r.address_mode_u == spec_address_mode(desc.address_u),
        r.address_mode_v == spec_address_mode(desc.address_v),
        r.address_mode_w == spec_address_mode(desc.address_w),
        r.compare_op == spec_get_compare_op(desc.comparison),
        r.unnormalized_coordinates == vulkan::FALSE,
{
    let (min_filter, mag_filter, mipmap_mode, anisotropy_enable, max_anisotropy) = match desc.filter {
        RenderSamplerFilter::MinMagMipPoint
        | RenderSamplerFilter::MinimumMinMagMipPoint
        | RenderSamplerFilter::MaximumMinMagMipPoint
        | RenderSamplerFilter::ComparisonMinMagMipPoint => (vulkan::FILTER_NEAREST, vulkan::FILTER_NEAREST, vulkan::SAMPLER_MIPMAP_MODE_NEAREST, vulkan::FALSE, 1),
        RenderSamplerFilter::MinMagPointMipLinear
        | RenderSamplerFilter::MinimumMinMagPointMipLinear
        | RenderSamplerFilter::MaximumMinMagPointMipLinear
        | RenderSamplerFilter::ComparisonMinMagPointMipLinear => (vulkan::FILTER_NEAREST, vulkan::FILTER_NEAREST, vulkan::SAMPLER_MIPMAP_MODE_LINEAR, vulkan::FALSE, 1),
        RenderSamplerFilter::MinPointMagLinearMipPoint
        | RenderSamplerFilter::MinimumMinPointMagLinearMipPoint
        | RenderSamplerFilter::MaximumMinPointMagLinearMipPoint
        | RenderSamplerFilter::ComparisonMinPointMagLinearMipPoint => (vulkan::FILTER_NEAREST, vulkan::FILTER_LINEAR, vulkan::SAMPLER_MIPMAP_MODE_NEAREST, vulkan::FALSE, 1),
        RenderSamplerFilter::MinPointMagMipLinear
        | RenderSamplerFilter::MinimumMinPointMagMipLinear
        | RenderSamplerFilter::MaximumMinPointMagMipLinear
        | RenderSamplerFilter::ComparisonMinPointMagMipLinear => (vulkan::FILTER_NEAREST, vulkan::FILTER_LINEAR, vulkan::SAMPLER_MIPMAP_MODE_LINEAR, vulkan::FALSE, 1),
        RenderSamplerFilter::MinLinearMagMipPoint
        | RenderSamplerFilter::MinimumMinLinearMagMipPoint
        | RenderSamplerFilter::MaximumMinLinearMagMipPoint
        | RenderSamplerFilter::ComparisonMinLinearMagMipPoint => (vulkan::FILTER_LINEAR, vulkan::FILTER_NEAREST, vulkan::SAMPLER_MIPMAP_MODE_NEAREST, vulkan::FALSE, 1),
        RenderSamplerFilter::MinLinearMagPointMipLinear
        | RenderSamplerFilter::MinimumMinLinearMagPointMipLinear
        | RenderSamplerFilter::MaximumMinLinearMagPointMipLinear
        | RenderSamplerFilter::ComparisonMinLinearMagPointMipLinear => (vulkan::FILTER_LINEAR, vulkan::FILTER_NEAREST, vulkan::SAMPLER_MIPMAP_MODE_LINEAR, vulkan::FALSE, 1),
        RenderSamplerFilter::MinMagLinearMipPoint
        | RenderSamplerFilter::MinimumMinMagLinearMipPoint
        | RenderSamplerFilter::MaximumMinMagLinearMipPoint
        | RenderSamplerFilter::ComparisonMinMagLinearMipPoint => (vulkan::FILTER_LINEAR, vulkan::FILTER_LINEAR, vulkan::SAMPLER_MIPMAP_MODE_NEAREST, vulkan::FALSE, 1),
        RenderSamplerFilter::MinMagMipLinear
        | RenderSamplerFilter::MinimumMinMagMipLinear
        | RenderSamplerFilter::MaximumMinMagMipLinear
        | RenderSamplerFilter::ComparisonMinMagMipLinear => (vulkan::FILTER_LINEAR, vulkan::FILTER_LINEAR, vulkan::SAMPLER_MIPMAP_MODE_LINEAR, vulkan::FALSE, 1),
        RenderSamplerFilter::Anisotropic
        | RenderSamplerFilter::MinimumAnisotropic
        | RenderSamplerFilter::MaximumAnisotropic
        | RenderSamplerFilter::ComparisonAnisotropic => (vulkan::FILTER_LINEAR, vulkan::FILTER_LINEAR, vulkan::SAMPLER_MIPMAP_MODE_LINEAR, vulkan::TRUE, clamp_u32(desc.max_aniso, 1, 16)),
    };
    let border_color = match desc.border_color {
        RenderBorderColor::BlackA0 => vulkan::BORDER_COLOR_FLOAT_TRANSPARENT_BLACK,
        RenderBorderColor::BlackA1 => vulkan::BORDER_COLOR_FLOAT_OPAQUE_BLACK,
        RenderBorderColor::WhiteA1 => vulkan::BORDER_COLOR_FLOAT_OPAQUE_WHITE,
    };
    SamplerCreateInfo {
        address_mode_u: get_addressing_mode(desc.address_u),
        address_mode_v: get_addressing_mode(desc.address_v),
        address_mode_w: get_addressing_mode(desc.address_w),
        min_lod: clamp_u32(desc.min_mip, 0, 16),
        max_lod: clamp_u32(desc.max_mip, 0, 16),
        unnormalized_coordinates: vulkan::FALSE,
        min_filter,
        mag_filter,
        mipmap_mode,
        anisotropy_enable,
        max_anisotropy,
        border_color,
        compare_enable: bool_to_vk(is_comparison_filter(desc.filter)),
        compare_op: get_compare_op(desc.comparison),
    }
}

} // verus!
