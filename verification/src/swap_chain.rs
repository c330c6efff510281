//! Swap chains: the choices made when one is created (surface format,
//! image count, extent, transform, present mode), the textures standing for
//! its images, and presenting, which copies a texture into the acquired
//! image between four barriers. Also the cycling of in-flight frames.

use vstd::prelude::*;
use crate::vulkan;
use crate::format::RenderFormat;
use crate::image::RenderBindFlags;
use crate::image::RenderTextureDesc;
use crate::image::RenderTextureType;
use crate::states::RenderResourceStates;
use crate::states::AccessType;
use crate::states::BarrierLayout;
use crate::resources::TextureRecord;

verus! {

/// Frames that can be in flight at once.
pub const MAX_GPU_FRAMES: usize = 2;

/// The frame that follows `frame_index`, and the frame to wait for before
/// reusing it (always the first: the device waits for idle).
pub fn advance_frame_index(frame_index: usize) -> (r: (usize, usize))
    requires
        frame_index < MAX_GPU_FRAMES,
    ensures
        r.0 == (frame_index + 1) % (MAX_GPU_FRAMES as int),
        r.0 < MAX_GPU_FRAMES,
        r.1 == r.0 - (if r.0 < MAX_GPU_FRAMES { r.0 } else { MAX_GPU_FRAMES }),
        r.1 == 0,
{
    let next = (frame_index + 1) % MAX_GPU_FRAMES;
    let render_ahead_limit = if next < MAX_GPU_FRAMES { next } else { MAX_GPU_FRAMES };
    (next, next - render_ahead_limit)
}

/// Advancing `MAX_GPU_FRAMES` times comes back to the same frame.
pub proof fn lemma_frames_cycle(frame_index: int)
    requires
        0 <= frame_index < MAX_GPU_FRAMES,
    ensures
        ((frame_index + 1) % (MAX_GPU_FRAMES as int) + 1) % (MAX_GPU_FRAMES as int) == frame_index,
        (frame_index + 1) % (MAX_GPU_FRAMES as int) != frame_index,
{
}

/// A format a surface supports, with its color space (`VkSurfaceFormatKHR`).
#[derive(Clone, Copy, Debug, PartialEq, Eq, Structural)]
pub struct SurfaceFormat {
    pub format: i32,
    pub color_space: i32,
}

/// The surface format used: the first one offered, where an undefined
/// format (the surface takes any) becomes 8-bit BGRA.
pub open spec fn spec_choose_surface_format(formats: Seq<SurfaceFormat>) -> SurfaceFormat {
    if formats[0].format == vulkan::FORMAT_UNDEFINED {
        SurfaceFormat { format: vulkan::FORMAT_B8G8R8_UNORM, color_space: formats[0].color_space }
    } else {
        formats[0]
    }
}

pub fn choose_surface_format(formats: &Vec<SurfaceFormat>) -> (r: SurfaceFormat)
    requires
        formats@.len() > 0,
    ensures
        r == spec_choose_surface_format(formats@),
        r.color_space == formats@[0].color_space,
        formats@[0].format != vulkan::FORMAT_UNDEFINED ==> r == formats@[0],
        formats@[0].format == vulkan::FORMAT_UNDEFINED ==> r.format == vulkan::FORMAT_B8G8R8_UNORM,
{
    let first = formats[0];
    if first.format == vulkan::FORMAT_UNDEFINED {
        SurfaceFormat { format: vulkan::FORMAT_B8G8R8_UNORM, color_space: first.color_space }
    } else {
        first
    }
}

/// One image more than the minimum, but no more than the maximum when the
/// surface has one (a maximum of 0 means none).
pub open spec fn spec_desired_image_count(min_image_count: u32, max_image_count: u32) -> u32 {
    if max_image_count > 0 && min_image_count + 1 > max_image_count {
        max_image_count
    } else {
        (min_image_count + 1) as u32
    }
}

pub fn desired_image_count(min_image_count: u32, max_image_count: u32) -> (r: u32)
    requires
        min_image_count < u32::MAX,
    ensures
        r == spec_desired_image_count(min_image_count, max_image_count),
        r <= min_image_count + 1,
        max_image_count > 0 ==> r <= max_image_count,
        max_image_count == 0 || min_image_count < max_image_count ==> r == min_image_count + 1,
        max_image_count > 0 && min_image_count >= max_image_count ==> r == max_image_count,
{
    let mut desired = min_image_count + 1;
    if max_image_count > 0 && desired > max_image_count {
        desired = max_image_count;
    }
    desired
}

/// A 2D extent (`VkExtent2D`).
#[derive(Clone, Copy, Debug, PartialEq, Eq, Structural)]
pub struct Extent2D {
    pub width: u32,
    pub height: u32,
}

/// The extent of the swap chain: the surface's own, unless the surface
/// leaves it to the swap chain (width `u32::MAX`), then the requested one.
pub open spec fn spec_surface_resolution(current: Extent2D, width: u32, height: u32) -> Extent2D {
    if current.width == u32::MAX { Extent2D { width, height } } else { current }
}

pub fn surface_resolution(current: Extent2D, width: u32, height: u32) -> (r: Extent2D)
    ensures
        r == spec_surface_resolution(current, width, height),
        current.width != u32::MAX ==> r == current,
        current.width == u32::MAX ==> r.width == width && r.height == height,
{
    if current.width == u32::MAX {
        Extent2D { width, height }
    } else {
        current
    }
}

/// The transform: identity when supported, else the current one.
pub open spec fn spec_pre_transform(supported_transforms: u32, current_transform: u32) -> u32 {
    if supported_transforms & vulkan::SURFACE_TRANSFORM_IDENTITY == vulkan::SURFACE_TRANSFORM_IDENTITY {
        vulkan::SURFACE_TRANSFORM_IDENTITY
    } else {
        current_transform
    }
}

pub fn pre_transform(supported_transforms: u32, current_transform: u32) -> (r: u32)
    ensures
        r == spec_pre_transform(supported_transforms, current_transform),
        r == vulkan::SURFACE_TRANSFORM_IDENTITY || r == current_transform,
        supported_transforms & vulkan::SURFACE_TRANSFORM_IDENTITY != 0 ==> r == vulkan::SURFACE_TRANSFORM_IDENTITY,
{
    assert(supported_transforms & 1u32 != 0 ==> supported_transforms & 1u32 == 1u32) by (bit_vector);
    if supported_transforms & vulkan::SURFACE_TRANSFORM_IDENTITY == vulkan::SURFACE_TRANSFORM_IDENTITY {
        vulkan::SURFACE_TRANSFORM_IDENTITY
    } else {
        current_transform
    }
}

/// The present mode: mailbox when offered, else FIFO (always available).
pub fn choose_present_mode(modes: &Vec<i32>) -> (r: i32)
    ensures
        r == (if modes@.contains(vulkan::PRESENT_MODE_MAILBOX) { vulkan::PRESENT_MODE_MAILBOX } else { vulkan::PRESENT_MODE_FIFO }),
{
    let mut i: usize = 0;
    while i < modes.len()
        invariant
            i <= modes@.len(),
            forall|k: int| 0 <= k < i ==> modes@[k] != vulkan::PRESENT_MODE_MAILBOX,
        decreases modes@.len() - i,
    {
        if modes[i] == vulkan::PRESENT_MODE_MAILBOX {
            assert(modes@[i as int] == vulkan::PRESENT_MODE_MAILBOX);
            return vulkan::PRESENT_MODE_MAILBOX;
        }
        i += 1;
    }
    vulkan::PRESENT_MODE_FIFO
}

/// Parameters of `vkCreateSwapchainKHR` that the backend chooses.
#[derive(Clone, Copy, Debug, PartialEq, Eq, Structural)]
pub struct SwapChainCreateInfo {
    pub min_image_count: u32,
    pub image_format: i32,
    pub image_color_space: i32,
    pub image_extent: Extent2D,
    pub image_array_layers: u32,
    pub image_usage: u32,
    pub image_sharing_mode: i32,
    pub pre_transform: u32,
    pub composite_alpha: u32,
    pub present_mode: i32,
    pub clipped: u32,
}

/// What a surface offers: its formats, image counts, extent, transforms
/// and present modes.
pub struct SurfaceCapabilities {
    pub formats: Vec<SurfaceFormat>,
    pub min_image_count: u32,
    pub max_image_count: u32,
    pub current_extent: Extent2D,
    pub supported_transforms: u32,
    pub current_transform: u32,
    pub present_modes: Vec<i32>,
}

/// The swap chain to create for a surface and a requested size: images
/// that are copy targets, attachments and sampled, owned by one queue,
/// opaque and clipped.
pub fn swap_chain_create_info(caps: &SurfaceCapabilities, width: u32, height: u32) -> (r: SwapChainCreateInfo)
    requires
        caps.formats@.len() > 0,
        caps.min_image_count < u32::MAX,
    ensures
        r == (SwapChainCreateInfo {
            min_image_count: spec_desired_image_count(caps.min_image_count, caps.max_image_count),
            image_format: spec_choose_surface_format(caps.formats@).format,
            image_color_space: spec_choose_surface_format(caps.formats@).color_space,
            image_extent: spec_surface_resolution(caps.current_extent, width, height),
            image_array_layers: 1,
            image_usage: vulkan::IMAGE_USAGE_TRANSFER_DST | vulkan::IMAGE_USAGE_COLOR_ATTACHMENT | vulkan::IMAGE_USAGE_SAMPLED,
            image_sharing_mode: vulkan::SHARING_MODE_EXCLUSIVE,
            pre_transform: spec_pre_transform(caps.supported_transforms, caps.current_transform),
            composite_alpha: vulkan::COMPOSITE_ALPHA_OPAQUE,
            present_mode: if caps.present_modes@.contains(vulkan::PRESENT_MODE_MAILBOX) {
                vulkan::PRESENT_MODE_MAILBOX
            } else {
                vulkan::PRESENT_MODE_FIFO
            },
            clipped: 1,
        }),
{
    let format = choose_surface_format(&caps.formats);
    SwapChainCreateInfo {
        min_image_count: desired_image_count(caps.min_image_count, caps.max_image_count),
        image_format: format.format,
        image_color_space: format.color_space,
        image_extent: surface_resolution(caps.current_extent, width, height),
        image_array_layers: 1,
        image_usage: vulkan::IMAGE_USAGE_TRANSFER_DST | vulkan::IMAGE_USAGE_COLOR_ATTACHMENT | vulkan::IMAGE_USAGE_SAMPLED,
        image_sharing_mode: vulkan::SHARING_MODE_EXCLUSIVE,
        pre_transform: pre_transform(caps.supported_transforms, caps.current_transform),
        composite_alpha: vulkan::COMPOSITE_ALPHA_OPAQUE,
        present_mode: choose_present_mode(&caps.present_modes),
        clipped: 1,
    }
}

/// The description of the textures standing for swap chain images: single
/// 2D render targets of the swap chain's format and size.
pub open spec fn spec_swap_chain_texture_desc(format: RenderFormat, width: u32, height: u32) -> RenderTextureDesc {
    RenderTextureDesc {
        texture_type: RenderTextureType::Tex2d,
        bind_flags: RenderBindFlags { bits: RenderBindFlags::RENDER_TARGET },
        format,
        width,
        height,
        depth: 1,
        levels: 1,
        elements: 1,
    }
}

pub fn swap_chain_texture_desc(format: RenderFormat, width: u32, height: u32) -> (r: RenderTextureDesc)
    ensures
        r == spec_swap_chain_texture_desc(format, width, height),
{
    RenderTextureDesc {
        texture_type: RenderTextureType::Tex2d,
        bind_flags: RenderBindFlags { bits: RenderBindFlags::RENDER_TARGET },
        format,
        width,
        height,
        depth: 1,
        levels: 1,
        elements: 1,
    }
}

/// The description of swap chain textures after a resize: the same, at
/// the new size.
pub fn resized_texture_desc(desc: &RenderTextureDesc, width: u32, height: u32) -> (r: RenderTextureDesc)
    ensures
        r == (RenderTextureDesc { width, height, ..*desc }),
{
    RenderTextureDesc { width, height, ..*desc }
}

/// The state swap chain textures rest in.
pub fn swap_chain_default_state() -> (r: RenderResourceStates)
    ensures
        r.bits == RenderResourceStates::COMMON,
{
    RenderResourceStates { bits: RenderResourceStates::COMMON }
}

// ---------------------------------------------------------------------
// Swap chain records

/// The record of a swap chain image: a texture of the given description
/// that does not own its memory, supports the states of its bind flags
/// (`resource_states`) and rests in the common state.
pub open spec fn spec_swap_chain_texture(desc: RenderTextureDesc, image: u64, resource_states: RenderResourceStates) -> TextureRecord {
    TextureRecord {
        desc,
        image,
        owns_memory: false,
        supported_states: resource_states,
        default_state: RenderResourceStates { bits: RenderResourceStates::COMMON },
    }
}

/// The records of a swap chain's images, in order.
pub open spec fn spec_swap_chain_textures(desc: RenderTextureDesc, images: Seq<u64>, resource_states: RenderResourceStates) -> Seq<TextureRecord> {
    images.map_values(|image: u64| spec_swap_chain_texture(desc, image, resource_states))
}

fn swap_chain_textures(desc: &RenderTextureDesc, images: &Vec<u64>, resource_states: RenderResourceStates) -> (r: Vec<TextureRecord>)
    ensures
        r@ == spec_swap_chain_textures(*desc, images@, resource_states),
{
    let mut r: Vec<TextureRecord> = Vec::new();
    let mut i: usize = 0;
    while i < images.len()
        invariant
            i <= images@.len(),
            r@ == spec_swap_chain_textures(*desc, images@.take(i as int), resource_states),
        decreases images@.len() - i,
    {
        r.push(TextureRecord {
            desc: *desc,
            image: images[i],
            owns_memory: false,
            supported_states: resource_states,
            default_state: swap_chain_default_state(),
        });
        i += 1;
        assert(r@ =~= spec_swap_chain_textures(*desc, images@.take(i as int), resource_states));
    }
    assert(images@.take(i as int) =~= images@);
    r
}

/// The backend's record of a swap chain: what it was created with, the
/// textures standing for its images, and the index of the image presented
/// into next.
pub struct SwapChainRecord {
    pub info: SwapChainCreateInfo,
    pub textures: Vec<TextureRecord>,
    pub back_buffer_index: u32,
}

impl SwapChainRecord {
    /// The record of a new swap chain with the given images: each stands
    /// for a render target of the requested format and size, and the first
    /// image is presented into first.
    pub fn new(info: SwapChainCreateInfo, format: RenderFormat, width: u32, height: u32, images: &Vec<u64>, resource_states: RenderResourceStates) -> (r: Self)
        ensures
            r.info == info,
            r.textures@ == spec_swap_chain_textures(spec_swap_chain_texture_desc(format, width, height), images@, resource_states),
            r.back_buffer_index == 0,
    {
        let desc = swap_chain_texture_desc(format, width, height);
        SwapChainRecord { info, textures: swap_chain_textures(&desc, images, resource_states), back_buffer_index: 0 }
    }

    /// The record after the swap chain was created again at a new size with
    /// the given images: the extent is the new size, each image stands for
    /// a texture described as the old ones were but at the new size, and
    /// the first image is presented into first.
    pub fn resize(&mut self, width: u32, height: u32, images: &Vec<u64>, resource_states: RenderResourceStates)
        requires
            old(self).textures@.len() > 0,
        ensures
            final(self).info == (SwapChainCreateInfo { image_extent: Extent2D { width, height }, ..old(self).info }),
            final(self).textures@ == spec_swap_chain_textures(
                RenderTextureDesc { width, height, ..old(self).textures@[0].desc },
                images@,
                resource_states,
            ),
            final(self).back_buffer_index == 0,
    {
        let desc = resized_texture_desc(&self.textures[0].desc, width, height);
        self.textures = swap_chain_textures(&desc, images, resource_states);
        self.info = SwapChainCreateInfo { image_extent: Extent2D { width, height }, ..self.info };
        self.back_buffer_index = 0;
    }
}

// ---------------------------------------------------------------------
// Presenting

/// What to do after asking for the next swap chain image.
#[derive(Clone, Copy, Debug, PartialEq, Eq, Structural)]
pub enum AcquireOutcome {
    /// Present into the image with this index.
    Present(u32),
    /// The swap chain is out of date or suboptimal: present nothing.
    Skip,
    /// Acquiring failed otherwise.
    Fail,
}

/// Classify the result of acquiring an image: an index, or a Vulkan error
/// code.
pub fn acquire_outcome(result: Result<u32, i32>) -> (r: AcquireOutcome)
    ensures
        r == match result {
            Ok(index) => AcquireOutcome::Present(index),
            Err(code) => if code == vulkan::RESULT_ERROR_OUT_OF_DATE_KHR || code == vulkan::RESULT_SUBOPTIMAL_KHR {
                AcquireOutcome::Skip
            } else {
                AcquireOutcome::Fail
            },
        },
{
    match result {
        Ok(index) => AcquireOutcome::Present(index),
        Err(code) => {
            if code == vulkan::RESULT_ERROR_OUT_OF_DATE_KHR || code == vulkan::RESULT_SUBOPTIMAL_KHR {
                AcquireOutcome::Skip
            } else {
                AcquireOutcome::Fail
            }
        },
    }
}

/// How presenting went: the image was presented, or the swap chain is
/// suboptimal or out of date, or presenting failed with another code.
#[derive(Clone, Copy, Debug, PartialEq, Eq, Structural)]
pub enum PresentOutcome {
    Presented,
    Suboptimal,
    OutOfDate,
    Failed(i32),
}

pub fn present_outcome(result: Result<bool, i32>) -> (r: PresentOutcome)
    ensures
        r == match result {
            Ok(_) => PresentOutcome::Presented,
            Err(code) => if code == vulkan::RESULT_SUBOPTIMAL_KHR {
                PresentOutcome::Suboptimal
            } else if code == vulkan::RESULT_ERROR_OUT_OF_DATE_KHR {
                PresentOutcome::OutOfDate
            } else {
                PresentOutcome::Failed(code)
            },
        },
{
    match result {
        Ok(_) => PresentOutcome::Presented,
        Err(code) => {
            if code == vulkan::RESULT_SUBOPTIMAL_KHR {
                PresentOutcome::Suboptimal
            } else if code == vulkan::RESULT_ERROR_OUT_OF_DATE_KHR {
                PresentOutcome::OutOfDate
            } else {
                PresentOutcome::Failed(code)
            }
        },
    }
}

/// The swap chain image at `index` as presenting sees it.
pub open spec fn spec_present_target(t: TextureRecord) -> PresentImage {
    PresentImage { image: t.image, width: t.desc.width, height: t.desc.height, default_state: t.default_state }
}

/// What presenting does once an image was asked for.
pub enum PresentStep {
    /// Record `plan` into the present list, submit it waiting on the
    /// acquire semaphore and signalling the render-done semaphore, and
    /// present the image the swap chain now points at.
    Copy(PresentPlan),
    /// The swap chain is out of date or suboptimal: nothing is presented.
    Skip,
}

impl SwapChainRecord {
    /// Decide what presenting `src` does with the outcome of asking for an
    /// image: an acquired image becomes the one presented into and gets
    /// the copy of `src`; an out-of-date or suboptimal swap chain is left
    /// as it is. Other failures to acquire are not handled.
    pub fn present_step(&mut self, acquired: AcquireOutcome, src: &PresentImage) -> (r: PresentStep)
        requires
            !(acquired is Fail),
            acquired matches AcquireOutcome::Present(i) ==> {
                &&& i < old(self).textures@.len()
                &&& src.width == old(self).textures@[i as int].desc.width
                &&& src.height == old(self).textures@[i as int].desc.height
            },
        ensures
            match acquired {
                AcquireOutcome::Present(i) => {
                    &&& final(self).back_buffer_index == i
                    &&& final(self).info == old(self).info
                    &&& final(self).textures@ == old(self).textures@
                    &&& r matches PresentStep::Copy(plan)
                    &&& plan == spec_present_plan(*src, spec_present_target(old(self).textures@[i as int]))
                },
                _ => {
                    &&& final(self).back_buffer_index == old(self).back_buffer_index
                    &&& final(self).info == old(self).info
                    &&& final(self).textures@ == old(self).textures@
                    &&& r is Skip
                },
            },
    {
        match acquired {
            AcquireOutcome::Present(i) => {
                self.back_buffer_index = i;
                let t = self.textures[i as usize];
                let dst = PresentImage { image: t.image, width: t.desc.width, height: t.desc.height, default_state: t.default_state };
                PresentStep::Copy(present_plan(src, &dst))
            },
            _ => PresentStep::Skip,
        }
    }
}

/// Access and layout a texture is in while it rests in its default state,
/// as presenting sees it.
pub open spec fn spec_present_source_access(default_state: RenderResourceStates) -> (AccessType, BarrierLayout) {
    if default_state.bits == RenderResourceStates::COMMON {
        (AccessType::Nothing, BarrierLayout::General)
    } else if default_state.spec_contains(RenderResourceStates::RENDER_TARGET) {
        (AccessType::ColorAttachmentWrite, BarrierLayout::Optimal)
    } else if default_state.spec_contains(RenderResourceStates::DEPTH_WRITE) {
        (AccessType::DepthStencilAttachmentWrite, BarrierLayout::Optimal)
    } else if default_state.spec_contains(RenderResourceStates::DEPTH_READ) {
        (AccessType::DepthStencilAttachmentRead, BarrierLayout::Optimal)
    } else if default_state.spec_contains(
        RenderResourceStates::PIXEL_SHADER_RESOURCE | RenderResourceStates::NON_PIXEL_SHADER_RESOURCE,
    ) {
        (AccessType::AnyShaderReadSampledImageOrUniformTexelBuffer, BarrierLayout::General)
    } else if default_state.spec_contains(RenderResourceStates::COPY_DEST) {
        (AccessType::TransferWrite, BarrierLayout::Optimal)
    } else if default_state.spec_contains(RenderResourceStates::COPY_SOURCE) {
        (AccessType::TransferRead, BarrierLayout::Optimal)
    } else {
        (AccessType::General, BarrierLayout::General)
    }
}

pub fn present_source_access(default_state: RenderResourceStates) -> (r: (AccessType, BarrierLayout))
    ensures
        r == spec_present_source_access(default_state),
{
    if default_state.bits == RenderResourceStates::COMMON {
        (AccessType::Nothing, BarrierLayout::General)
    } else if default_state.contains(RenderResourceStates::RENDER_TARGET) {
        (AccessType::ColorAttachmentWrite, BarrierLayout::Optimal)
    } else if default_state.contains(RenderResourceStates::DEPTH_WRITE) {
        (AccessType::DepthStencilAttachmentWrite, BarrierLayout::Optimal)
    } else if default_state.contains(RenderResourceStates::DEPTH_READ) {
        (AccessType::DepthStencilAttachmentRead, BarrierLayout::Optimal)
    } else if default_state.contains(
        RenderResourceStates::PIXEL_SHADER_RESOURCE | RenderResourceStates::NON_PIXEL_SHADER_RESOURCE,
    ) {
        (AccessType::AnyShaderReadSampledImageOrUniformTexelBuffer, BarrierLayout::General)
    } else if default_state.contains(RenderResourceStates::COPY_DEST) {
        (AccessType::TransferWrite, BarrierLayout::Optimal)
    } else if default_state.contains(RenderResourceStates::COPY_SOURCE) {
        (AccessType::TransferRead, BarrierLayout::Optimal)
    } else {
        (AccessType::General, BarrierLayout::General)
    }
}

/// A barrier over the single color layer and level of an image.
#[derive(Clone, Copy, Debug, PartialEq, Eq, Structural)]
pub struct PresentBarrier {
    pub previous_access: AccessType,
    pub next_access: AccessType,
    pub previous_layout: BarrierLayout,
    pub next_layout: BarrierLayout,
    pub discard_contents: bool,
    pub image: u64,
}

/// A blit of a whole image of one size into one of another.
#[derive(Clone, Copy, Debug, PartialEq, Eq, Structural)]
pub struct BlitRegion {
    pub src_width: i32,
    pub src_height: i32,
    pub dst_width: i32,
    pub dst_height: i32,
}

/// A texture taking part in presenting.
#[derive(Clone, Copy, Debug, PartialEq, Eq, Structural)]
pub struct PresentImage {
    pub image: u64,
    pub width: u32,
    pub height: u32,
    pub default_state: RenderResourceStates,
}

/// The commands of presenting, in order: source to copy source, swap chain
/// image (contents discarded) to copy target, the blit, source back to its
/// default access, swap chain image to present.
pub struct PresentPlan {
    pub src_to_copy: PresentBarrier,
    pub swap_to_copy: PresentBarrier,
    pub blit: BlitRegion,
    pub copy_to_src: PresentBarrier,
    pub copy_to_swap: PresentBarrier,
}

/// The plan for presenting `src` into the acquired swap chain image `dst`.
pub open spec fn spec_present_plan(src: PresentImage, dst: PresentImage) -> PresentPlan {
    let (access, layout) = spec_present_source_access(src.default_state);
    PresentPlan {
        src_to_copy: PresentBarrier {
            previous_access: access,
            next_access: AccessType::TransferRead,
            previous_layout: layout,
            next_layout: BarrierLayout::Optimal,
            discard_contents: false,
            image: src.image,
        },
        swap_to_copy: PresentBarrier {
            previous_access: AccessType::Nothing,
            next_access: AccessType::TransferWrite,
            previous_layout: BarrierLayout::General,
            next_layout: BarrierLayout::Optimal,
            discard_contents: true,
            image: dst.image,
        },
        blit: BlitRegion {
            src_width: src.width as i32,
            src_height: src.height as i32,
            dst_width: dst.width as i32,
            dst_height: dst.height as i32,
        },
        copy_to_src: PresentBarrier {
            previous_access: AccessType::TransferRead,
            next_access: access,
            previous_layout: BarrierLayout::Optimal,
            next_layout: layout,
            discard_contents: false,
            image: src.image,
        },
        copy_to_swap: PresentBarrier {
            previous_access: AccessType::TransferWrite,
            next_access: AccessType::Present,
            previous_layout: BarrierLayout::Optimal,
            next_layout: BarrierLayout::General,
            discard_contents: false,
            image: dst.image,
        },
    }
}

/// Plan presenting `src` into the acquired swap chain image `dst`, which
/// has the same size.
pub fn present_plan(src: &PresentImage, dst: &PresentImage) -> (r: PresentPlan)
    requires
        src.width == dst.width,
        src.height == dst.height,
    ensures
        r == spec_present_plan(*src, *dst),
{
    let (access, layout) = present_source_access(src.default_state);
    PresentPlan {
        src_to_copy: PresentBarrier {
            previous_access: access,
            next_access: AccessType::TransferRead,
            previous_layout: layout,
            next_layout: BarrierLayout::Optimal,
            discard_contents: false,
            image: src.image,
        },
        swap_to_copy: PresentBarrier {
            previous_access: AccessType::Nothing,
            next_access: AccessType::TransferWrite,
            previous_layout: BarrierLayout::General,
            next_layout: BarrierLayout::Optimal,
            discard_contents: true,
            image: dst.image,
        },
        blit: BlitRegion {
            src_width: src.width as i32,
            src_height: src.height as i32,
            dst_width: dst.width as i32,
            dst_height: dst.height as i32,
        },
        copy_to_src: PresentBarrier {
            previous_access: AccessType::TransferRead,
            next_access: access,
            previous_layout: BarrierLayout::Optimal,
            next_layout: layout,
            discard_contents: false,
            image: src.image,
        },
        copy_to_swap: PresentBarrier {
            previous_access: AccessType::TransferWrite,
            next_access: AccessType::Present,
            previous_layout: BarrierLayout::Optimal,
            next_layout: BarrierLayout::General,
            discard_contents: false,
            image: dst.image,
        },
    }
}

/// Presenting leaves the source texture as it found it (the barrier after
/// the blit undoes the one before it, and neither discards its contents),
/// and leaves the swap chain image ready to present, coming from the copy
/// that the first barrier on it prepared.
pub proof fn lemma_present_restores_source(src: PresentImage, dst: PresentImage)
    ensures
        ({
            let p = spec_present_plan(src, dst);
            &&& p.copy_to_src.image == p.src_to_copy.image
            &&& p.copy_to_src.previous_access == p.src_to_copy.next_access
            &&& p.copy_to_src.next_access == p.src_to_copy.previous_access
            &&& p.copy_to_src.previous_layout == p.src_to_copy.next_layout
            &&& p.copy_to_src.next_layout == p.src_to_copy.previous_layout
            &&& !p.src_to_copy.discard_contents && !p.copy_to_src.discard_contents
            &&& p.copy_to_swap.image == p.swap_to_copy.image
            &&& p.copy_to_swap.previous_access == p.swap_to_copy.next_access
            &&& p.copy_to_swap.previous_layout == p.swap_to_copy.next_layout
            &&& p.copy_to_swap.next_access == AccessType::Present
            &&& p.src_to_copy.image == src.image
            &&& p.src_to_copy.next_access == AccessType::TransferRead
            &&& p.src_to_copy.next_layout == BarrierLayout::Optimal
            &&& p.swap_to_copy.image == dst.image
            &&& p.swap_to_copy.next_access == AccessType::TransferWrite
            &&& p.swap_to_copy.next_layout == BarrierLayout::Optimal
            &&& p.swap_to_copy.discard_contents
            &&& p.copy_to_swap.next_layout == BarrierLayout::General
        }),
{
}

} // verus!
