//! Render passes: attachment descriptions and references, the layouts of
//! depth-stencil targets, the compatible render passes that graphics
//! pipelines are created against (cached by a hash of their color
//! attachments), and the transitions around beginning and ending a pass.

use vstd::prelude::*;
use crate::vulkan;
use crate::format::RenderFormat;
use crate::format::spec_convert_format;
use crate::format::convert_format;
use crate::format::spec_format_has_stencil;
use crate::format::format_has_stencil;
use crate::hashing::u32_le_bytes;
use crate::hashing::push_u32_le;
use crate::hashing::xxhash32;
use crate::hashing::xxhash32_digest;
use crate::assoc::AssocList;
use crate::states::RenderResourceStates;
use crate::states::AccessType;
use crate::states::spec_get_image_access_type;
use crate::states::lemma_single_state_tables;
use crate::image::RenderViewDimension;
use crate::image::spec_view_dimension_to_view_type;
use crate::image::convert_view_dimension_to_view_type;

verus! {

/// Render targets a frame binding can hold.
pub const MAX_RENDER_TARGET_COUNT: usize = 8;

/// An attachment of a render pass (`VkAttachmentDescription`).
#[derive(Clone, Copy, Debug, PartialEq, Eq, Structural)]
pub struct AttachmentDescription {
    pub flags: u32,
    pub format: i32,
    pub samples: u32,
    pub load_op: i32,
    pub store_op: i32,
    pub stencil_load_op: i32,
    pub stencil_store_op: i32,
    pub initial_layout: i32,
    pub final_layout: i32,
}

/// A reference from a subpass to an attachment (`VkAttachmentReference`).
#[derive(Clone, Copy, Debug, PartialEq, Eq, Structural)]
pub struct AttachmentReference {
    pub attachment: u32,
    pub layout: i32,
}

/// What happens to an attachment's contents when a pass begins.
#[derive(Clone, Copy, Debug, PartialEq, Eq, Structural)]
pub enum RenderLoadOp {
    Discard,
    Load,
    Clear,
}

/// What happens to an attachment's contents when a pass ends.
#[derive(Clone, Copy, Debug, PartialEq, Eq, Structural)]
pub enum RenderStoreOp {
    Discard,
    Store,
}

pub open spec fn spec_load_op(op: RenderLoadOp) -> i32 {
    match op {
        RenderLoadOp::Discard => vulkan::ATTACHMENT_LOAD_OP_DONT_CARE,
        RenderLoadOp::Load => vulkan::ATTACHMENT_LOAD_OP_LOAD,
        RenderLoadOp::Clear => vulkan::ATTACHMENT_LOAD_OP_CLEAR,
    }
}

/// The contents an attachment starts a pass with: what it held before,
/// the clear value, or undefined contents (`None`).
pub open spec fn load_op_contents(op: RenderLoadOp, prior: int, clear: int) -> Option<int> {
    match op {
        RenderLoadOp::Discard => None,
        RenderLoadOp::Load => Some(prior),
        RenderLoadOp::Clear => Some(clear),
    }
}

/// The contents a Vulkan load operation starts an attachment with, by the
/// numbers Vulkan gives its load operations.
pub open spec fn vk_load_op_contents(op: int, prior: int, clear: int) -> Option<Option<int>> {
    if op == 0 { Some(Some(prior)) }
    else if op == 1 { Some(Some(clear)) }
    else if op == 2 { Some(None) }
    else { None }
}

/// The contents an attachment keeps after a pass: what the pass rendered,
/// or undefined contents (`None`).
pub open spec fn store_op_contents(op: RenderStoreOp, rendered: int) -> Option<int> {
    match op {
        RenderStoreOp::Discard => None,
        RenderStoreOp::Store => Some(rendered),
    }
}

/// The contents a Vulkan store operation leaves, by the numbers Vulkan gives
/// its store operations.
pub open spec fn vk_store_op_contents(op: int, rendered: int) -> Option<Option<int>> {
    if op == 0 { Some(Some(rendered)) }
    else if op == 1 { Some(None) }
    else { None }
}

/// Load and store operations become the Vulkan operations of the same
/// meaning: loading keeps the prior contents, clearing gives the clear
/// value, discarding leaves the contents undefined; storing keeps what was
/// rendered and discarding does not.
pub proof fn lemma_load_store_meaning(load: RenderLoadOp, store: RenderStoreOp, prior: int, clear: int, rendered: int)
    ensures
        vk_load_op_contents(spec_load_op(load) as int, prior, clear) == Some(load_op_contents(load, prior, clear)),
        vk_store_op_contents(spec_store_op(store) as int, rendered) == Some(store_op_contents(store, rendered)),
{
}

/// Vulkan load operation of a load operation.
pub fn get_load_op(op: RenderLoadOp) -> (r: i32)
    ensures
        r == spec_load_op(op),
        forall|prior: int, clear: int| #[trigger] vk_load_op_contents(r as int, prior, clear)
            == Some(load_op_contents(op, prior, clear)),
{
    proof {
        assert forall|prior: int, clear: int| #[trigger] vk_load_op_contents(spec_load_op(op) as int, prior, clear)
            == Some(load_op_contents(op, prior, clear)) by {
            lemma_load_store_meaning(op, RenderStoreOp::Store, prior, clear, 0);
        }
    }
    match op {
        RenderLoadOp::Discard => vulkan::ATTACHMENT_LOAD_OP_DONT_CARE,
        RenderLoadOp::Load => vulkan::ATTACHMENT_LOAD_OP_LOAD,
        RenderLoadOp::Clear => vulkan::ATTACHMENT_LOAD_OP_CLEAR,
    }
}

pub open spec fn spec_store_op(op: RenderStoreOp) -> i32 {
    match op {
        RenderStoreOp::Discard => vulkan::ATTACHMENT_STORE_OP_DONT_CARE,
        RenderStoreOp::Store => vulkan::ATTACHMENT_STORE_OP_STORE,
    }
}

/// Vulkan store operation of a store operation.
pub fn get_store_op(op: RenderStoreOp) -> (r: i32)
    ensures
        r == spec_store_op(op),
        forall|rendered: int| #[trigger] vk_store_op_contents(r as int, rendered) == Some(store_op_contents(op, rendered)),
{
    proof {
        assert forall|rendered: int| #[trigger] vk_store_op_contents(spec_store_op(op) as int, rendered)
            == Some(store_op_contents(op, rendered)) by {
            lemma_load_store_meaning(RenderLoadOp::Load, op, 0, 0, rendered);
        }
    }
    match op {
        RenderStoreOp::Discard => vulkan::ATTACHMENT_STORE_OP_DONT_CARE,
        RenderStoreOp::Store => vulkan::ATTACHMENT_STORE_OP_STORE,
    }
}

/// A reference to no attachment.
pub open spec fn unused_reference() -> AttachmentReference {
    AttachmentReference { attachment: vulkan::ATTACHMENT_UNUSED, layout: vulkan::IMAGE_LAYOUT_UNDEFINED }
}

// ---------------------------------------------------------------------
// Compatible render passes of graphics pipelines

/// A color attachment of a compatible render pass: only its format matters.
pub open spec fn compat_color_attachment(format: RenderFormat) -> AttachmentDescription {
    AttachmentDescription {
        flags: 0,
        format: spec_convert_format(format),
        samples: vulkan::SAMPLE_COUNT_1,
        load_op: vulkan::ATTACHMENT_LOAD_OP_DONT_CARE,
        store_op: vulkan::ATTACHMENT_STORE_OP_DONT_CARE,
        stencil_load_op: vulkan::ATTACHMENT_LOAD_OP_DONT_CARE,
        stencil_store_op: vulkan::ATTACHMENT_STORE_OP_DONT_CARE,
        initial_layout: vulkan::IMAGE_LAYOUT_COLOR_ATTACHMENT_OPTIMAL,
        final_layout: vulkan::IMAGE_LAYOUT_COLOR_ATTACHMENT_OPTIMAL,
    }
}

/// The depth-stencil attachment of a compatible render pass.
pub open spec fn compat_depth_attachment(format: RenderFormat) -> AttachmentDescription {
    AttachmentDescription {
        flags: 0,
        format: spec_convert_format(format),
        samples: vulkan::SAMPLE_COUNT_1,
        load_op: vulkan::ATTACHMENT_LOAD_OP_DONT_CARE,
        store_op: vulkan::ATTACHMENT_STORE_OP_DONT_CARE,
        stencil_load_op: vulkan::ATTACHMENT_LOAD_OP_DONT_CARE,
        stencil_store_op: vulkan::ATTACHMENT_STORE_OP_DONT_CARE,
        initial_layout: vulkan::IMAGE_LAYOUT_DEPTH_STENCIL_ATTACHMENT_OPTIMAL,
        final_layout: vulkan::IMAGE_LAYOUT_DEPTH_STENCIL_ATTACHMENT_OPTIMAL,
    }
}

/// Color attachments of a compatible render pass: one per target slot
/// that has a format, in slot order.
pub open spec fn spec_compat_color_attachments(formats: Seq<RenderFormat>) -> Seq<AttachmentDescription>
    decreases formats.len(),
{
    if formats.len() == 0 {
        Seq::empty()
    } else if formats.last() == RenderFormat::Unknown {
        spec_compat_color_attachments(formats.drop_last())
    } else {
        spec_compat_color_attachments(formats.drop_last()).push(compat_color_attachment(formats.last()))
    }
}

/// References of the target slots: unused for a slot without a format,
/// else the slot's attachment, numbered in slot order.
pub open spec fn spec_compat_color_references(formats: Seq<RenderFormat>) -> Seq<AttachmentReference>
    decreases formats.len(),
{
    if formats.len() == 0 {
        Seq::empty()
    } else if formats.last() == RenderFormat::Unknown {
        spec_compat_color_references(formats.drop_last()).push(
            AttachmentReference { attachment: vulkan::ATTACHMENT_UNUSED, layout: 0 },
        )
    } else {
        spec_compat_color_references(formats.drop_last()).push(AttachmentReference {
            attachment: spec_compat_color_attachments(formats.drop_last()).len() as u32,
            layout: vulkan::IMAGE_LAYOUT_COLOR_ATTACHMENT_OPTIMAL,
        })
    }
}

/// Color attachments and their references for the given target formats.
pub fn compat_color_attachments(formats: &Vec<RenderFormat>) -> (r: (Vec<AttachmentDescription>, Vec<AttachmentReference>))
    requires
        formats@.len() <= u32::MAX,
    ensures
        r.0@ == spec_compat_color_attachments(formats@),
        r.1@ == spec_compat_color_references(formats@),
{
    let mut attachments: Vec<AttachmentDescription> = Vec::new();
    let mut references: Vec<AttachmentReference> = Vec::new();
    let mut i: usize = 0;
    while i < formats.len()
        invariant
            i <= formats@.len(),
            formats@.len() <= u32::MAX,
            attachments@ == spec_compat_color_attachments(formats@.take(i as int)),
            references@ == spec_compat_color_references(formats@.take(i as int)),
            attachments@.len() <= i,
        decreases formats@.len() - i,
    {
        proof {
            assert(formats@.take(i + 1).drop_last() =~= formats@.take(i as int));
        }
        let format = formats[i];
        if format == RenderFormat::Unknown {
            references.push(AttachmentReference { attachment: vulkan::ATTACHMENT_UNUSED, layout: 0 });
        } else {
            references.push(AttachmentReference {
                attachment: attachments.len() as u32,
                layout: vulkan::IMAGE_LAYOUT_COLOR_ATTACHMENT_OPTIMAL,
            });
            attachments.push(AttachmentDescription {
                flags: 0,
                format: convert_format(format, false),
                samples: vulkan::SAMPLE_COUNT_1,
                load_op: vulkan::ATTACHMENT_LOAD_OP_DONT_CARE,
                store_op: vulkan::ATTACHMENT_STORE_OP_DONT_CARE,
                stencil_load_op: vulkan::ATTACHMENT_LOAD_OP_DONT_CARE,
                stencil_store_op: vulkan::ATTACHMENT_STORE_OP_DONT_CARE,
                initial_layout: vulkan::IMAGE_LAYOUT_COLOR_ATTACHMENT_OPTIMAL,
                final_layout: vulkan::IMAGE_LAYOUT_COLOR_ATTACHMENT_OPTIMAL,
            });
        }
        i += 1;
    }
    assert(formats@.take(i as int) =~= formats@);
    (attachments, references)
}

/// The bytes of an attachment description as it lies in memory: its nine
/// 32-bit fields, little-endian, in declaration order.
pub open spec fn attachment_bytes(a: AttachmentDescription) -> Seq<u8> {
    u32_le_bytes(a.flags) + u32_le_bytes(a.format as u32) + u32_le_bytes(a.samples)
        + u32_le_bytes(a.load_op as u32) + u32_le_bytes(a.store_op as u32)
        + u32_le_bytes(a.stencil_load_op as u32) + u32_le_bytes(a.stencil_store_op as u32)
        + u32_le_bytes(a.initial_layout as u32) + u32_le_bytes(a.final_layout as u32)
}

/// The bytes of a sequence of attachment descriptions, one after another.
pub open spec fn attachments_bytes(s: Seq<AttachmentDescription>) -> Seq<u8>
    decreases s.len(),
{
    if s.len() == 0 {
        Seq::empty()
    } else {
        attachments_bytes(s.drop_last()) + attachment_bytes(s.last())
    }
}

/// Append the bytes of one attachment description.
fn push_attachment_bytes(bytes: &mut Vec<u8>, a: &AttachmentDescription)
    ensures
        final(bytes)@ == old(bytes)@ + attachment_bytes(*a),
{
    push_u32_le(bytes, a.flags);
    push_u32_le(bytes, a.format as u32);
    push_u32_le(bytes, a.samples);
    push_u32_le(bytes, a.load_op as u32);
    push_u32_le(bytes, a.store_op as u32);
    push_u32_le(bytes, a.stencil_load_op as u32);
    push_u32_le(bytes, a.stencil_store_op as u32);
    push_u32_le(bytes, a.initial_layout as u32);
    push_u32_le(bytes, a.final_layout as u32);
    assert(bytes@ =~= old(bytes)@ + attachment_bytes(*a));
}

/// The key of a compatible render pass: the digest of its color
/// attachments' bytes.
pub open spec fn spec_attachment_hash(s: Seq<AttachmentDescription>) -> u64 {
    xxhash32_digest(attachments_bytes(s))
}

/// Hash the color attachments of a compatible render pass.
pub fn attachment_hash(attachments: &Vec<AttachmentDescription>) -> (r: u64)
    ensures
        r == spec_attachment_hash(attachments@),
        r <= u32::MAX,
{
    let mut bytes: Vec<u8> = Vec::new();
    let mut i: usize = 0;
    while i < attachments.len()
        invariant
            i <= attachments@.len(),
            bytes@ == attachments_bytes(attachments@.take(i as int)),
        decreases attachments@.len() - i,
    {
        proof {
            assert(attachments@.take(i + 1).drop_last() =~= attachments@.take(i as int));
        }
        push_attachment_bytes(&mut bytes, &attachments[i]);
        i += 1;
    }
    assert(attachments@.take(i as int) =~= attachments@);
    xxhash32(&bytes)
}

/// Number of target slots that have a format.
pub open spec fn known_format_count(formats: Seq<RenderFormat>) -> nat {
    spec_compat_color_attachments(formats).len()
}

/// What a graphics pipeline needs of its compatible render pass: the
/// attachments (color, then depth-stencil if there is one), the references
/// of the color slots and of the depth-stencil attachment, and the cache key.
pub struct CompatRenderPassPlan {
    pub attachments: Vec<AttachmentDescription>,
    pub color_references: Vec<AttachmentReference>,
    pub depth_reference: AttachmentReference,
    pub hash: u64,
}

/// Plan the compatible render pass of a graphics pipeline with the given
/// target formats and depth-stencil format. The key covers the color
/// attachments only. The number of formatted targets must be the pipeline's
/// render target count.
pub fn compat_render_pass_plan(formats: &Vec<RenderFormat>, render_target_count: u32, depth_stencil_format: RenderFormat) -> (r: CompatRenderPassPlan)
    requires
        formats@.len() <= u32::MAX,
        known_format_count(formats@) == render_target_count,
    ensures
        r.hash == spec_attachment_hash(spec_compat_color_attachments(formats@)),
        r.color_references@ == spec_compat_color_references(formats@),
        depth_stencil_format == RenderFormat::Unknown ==> {
            &&& r.attachments@ == spec_compat_color_attachments(formats@)
            &&& r.depth_reference == AttachmentReference { attachment: vulkan::ATTACHMENT_UNUSED, layout: 0 }
        },
        depth_stencil_format != RenderFormat::Unknown ==> {
            &&& r.attachments@ == spec_compat_color_attachments(formats@).push(compat_depth_attachment(depth_stencil_format))
            &&& r.depth_reference == AttachmentReference {
                attachment: render_target_count,
                layout: vulkan::IMAGE_LAYOUT_COLOR_ATTACHMENT_OPTIMAL,
            }
        },
{
    let (mut attachments, color_references) = compat_color_attachments(formats);
    let hash = attachment_hash(&attachments);
    let depth_reference = if depth_stencil_format == RenderFormat::Unknown {
        AttachmentReference { attachment: vulkan::ATTACHMENT_UNUSED, layout: 0 }
    } else {
        let reference = AttachmentReference {
            attachment: render_target_count,
            layout: vulkan::IMAGE_LAYOUT_COLOR_ATTACHMENT_OPTIMAL,
        };
        attachments.push(AttachmentDescription {
            flags: 0,
            format: convert_format(depth_stencil_format, false),
            samples: vulkan::SAMPLE_COUNT_1,
            load_op: vulkan::ATTACHMENT_LOAD_OP_DONT_CARE,
            store_op: vulkan::ATTACHMENT_STORE_OP_DONT_CARE,
            stencil_load_op: vulkan::ATTACHMENT_LOAD_OP_DONT_CARE,
            stencil_store_op: vulkan::ATTACHMENT_STORE_OP_DONT_CARE,
            initial_layout: vulkan::IMAGE_LAYOUT_DEPTH_STENCIL_ATTACHMENT_OPTIMAL,
            final_layout: vulkan::IMAGE_LAYOUT_DEPTH_STENCIL_ATTACHMENT_OPTIMAL,
        });
        reference
    };
    CompatRenderPassPlan { attachments, color_references, depth_reference, hash }
}

/// Compatible render passes created so far, by attachment hash.
pub struct CompatRenderPassCache {
    pub passes: AssocList<u64>,
}

impl CompatRenderPassCache {
    pub fn new() -> (r: Self)
        ensures
            r.passes.wf(),
            r.passes@ == Map::<u64, u64>::empty(),
    {
        CompatRenderPassCache { passes: AssocList::new() }
    }

    /// The render pass cached under `hash`, if one was cached and it is a
    /// live (non-null) handle.
    pub fn lookup(&self, hash: u64) -> (r: Option<u64>)
        requires
            self.passes.wf(),
        ensures
            r == (if self.passes@.contains_key(hash) && self.passes@[hash] != 0 {
                Some(self.passes@[hash])
            } else {
                None::<u64>
            }),
    {
        match self.passes.get(hash) {
            Some(pass) => if pass != 0 { Some(pass) } else { None },
            None => None,
        }
    }

    /// Cache a newly created render pass under `hash`.
    pub fn insert(&mut self, hash: u64, render_pass: u64)
        requires
            old(self).passes.wf(),
        ensures
            final(self).passes.wf(),
            final(self).passes@ == old(self).passes@.insert(hash, render_pass),
    {
        self.passes.insert(hash, render_pass);
    }
}

/// A pass cached under a key is what a later lookup of that key finds.
pub proof fn lemma_compat_cache_read_after_write(passes: Map<u64, u64>, hash: u64, render_pass: u64, other: u64)
    requires
        render_pass != 0,
    ensures
        passes.insert(hash, render_pass).contains_key(hash),
        passes.insert(hash, render_pass)[hash] == render_pass,
        other != hash ==> passes.insert(hash, render_pass).contains_key(other) == passes.contains_key(other),
        other != hash && passes.contains_key(other) ==> passes.insert(hash, render_pass)[other] == passes[other],
{
}

// ---------------------------------------------------------------------
// Render passes of frame bindings

/// Load and store operations of one target of a pass.
#[derive(Clone, Copy, Debug, PartialEq, Eq, Structural)]
pub struct RenderTargetInfo {
    pub load_op: RenderLoadOp,
    pub store_op: RenderStoreOp,
}

/// Where a clear value of a pass comes from: the clear color of a render
/// target slot, or the depth-stencil clear values.
#[derive(Clone, Copy, Debug, PartialEq, Eq, Structural)]
pub enum ClearSource {
    Color(u32),
    DepthStencil,
}

/// Layout of a depth-stencil target: read-only aspects are in read-only
/// layouts; without stencil only the depth flag counts.
pub open spec fn spec_depth_stencil_layout(has_stencil: bool, read_only_depth: bool, read_only_stencil: bool) -> i32 {
    if has_stencil {
        if read_only_depth && read_only_stencil {
            vulkan::IMAGE_LAYOUT_DEPTH_STENCIL_READ_ONLY_OPTIMAL
        } else if read_only_depth {
            vulkan::IMAGE_LAYOUT_DEPTH_READ_ONLY_STENCIL_ATTACHMENT_OPTIMAL
        } else if read_only_stencil {
            vulkan::IMAGE_LAYOUT_DEPTH_ATTACHMENT_STENCIL_READ_ONLY_OPTIMAL
        } else {
            vulkan::IMAGE_LAYOUT_DEPTH_STENCIL_ATTACHMENT_OPTIMAL
        }
    } else if read_only_depth {
        vulkan::IMAGE_LAYOUT_DEPTH_STENCIL_READ_ONLY_OPTIMAL
    } else {
        vulkan::IMAGE_LAYOUT_DEPTH_STENCIL_ATTACHMENT_OPTIMAL
    }
}

/// The Vulkan layouts a depth-stencil attachment can be in.
pub open spec fn is_depth_stencil_attachment_layout(layout: i32) -> bool {
    ||| layout == vulkan::IMAGE_LAYOUT_DEPTH_STENCIL_ATTACHMENT_OPTIMAL
    ||| layout == vulkan::IMAGE_LAYOUT_DEPTH_STENCIL_READ_ONLY_OPTIMAL
    ||| layout == vulkan::IMAGE_LAYOUT_DEPTH_READ_ONLY_STENCIL_ATTACHMENT_OPTIMAL
    ||| layout == vulkan::IMAGE_LAYOUT_DEPTH_ATTACHMENT_STENCIL_READ_ONLY_OPTIMAL
}

/// Vulkan layouts in which the depth aspect can only be read.
pub open spec fn layout_depth_read_only(layout: i32) -> bool {
    ||| layout == vulkan::IMAGE_LAYOUT_DEPTH_STENCIL_READ_ONLY_OPTIMAL
    ||| layout == vulkan::IMAGE_LAYOUT_DEPTH_READ_ONLY_STENCIL_ATTACHMENT_OPTIMAL
}

/// Vulkan layouts in which the stencil aspect can only be read.
pub open spec fn layout_stencil_read_only(layout: i32) -> bool {
    ||| layout == vulkan::IMAGE_LAYOUT_DEPTH_STENCIL_READ_ONLY_OPTIMAL
    ||| layout == vulkan::IMAGE_LAYOUT_DEPTH_ATTACHMENT_STENCIL_READ_ONLY_OPTIMAL
}

/// A depth-stencil target is laid out read-only exactly in the aspects
/// its view makes read-only: the layout is a depth-stencil attachment
/// layout whose depth aspect is read-only just when the depth flag is set
/// and, for a format with stencil, whose stencil aspect is read-only just
/// when the stencil flag is set; a format without stencil uses one of the
/// two layouts that treat both aspects alike. With neither flag set the
/// target is writable in the depth-stencil attachment layout.
pub proof fn lemma_depth_stencil_layout_read_only(has_stencil: bool, read_only_depth: bool, read_only_stencil: bool)
    ensures
        ({
            let l = spec_depth_stencil_layout(has_stencil, read_only_depth, read_only_stencil);
            &&& is_depth_stencil_attachment_layout(l)
            &&& layout_depth_read_only(l) == read_only_depth
            &&& has_stencil ==> layout_stencil_read_only(l) == read_only_stencil
            &&& !has_stencil ==> (l == vulkan::IMAGE_LAYOUT_DEPTH_STENCIL_ATTACHMENT_OPTIMAL
                || l == vulkan::IMAGE_LAYOUT_DEPTH_STENCIL_READ_ONLY_OPTIMAL)
            &&& !read_only_depth && !read_only_stencil ==> l == vulkan::IMAGE_LAYOUT_DEPTH_STENCIL_ATTACHMENT_OPTIMAL
        }),
{
}

pub fn depth_stencil_layout(has_stencil: bool, read_only_depth: bool, read_only_stencil: bool) -> (r: i32)
    ensures
        r == spec_depth_stencil_layout(has_stencil, read_only_depth, read_only_stencil),
        is_depth_stencil_attachment_layout(r),
        layout_depth_read_only(r) == read_only_depth,
        has_stencil ==> layout_stencil_read_only(r) == read_only_stencil,
        !has_stencil ==> (r == vulkan::IMAGE_LAYOUT_DEPTH_STENCIL_ATTACHMENT_OPTIMAL
            || r == vulkan::IMAGE_LAYOUT_DEPTH_STENCIL_READ_ONLY_OPTIMAL),
        !read_only_depth && !read_only_stencil ==> r == vulkan::IMAGE_LAYOUT_DEPTH_STENCIL_ATTACHMENT_OPTIMAL,
{
    proof {
        lemma_depth_stencil_layout_read_only(has_stencil, read_only_depth, read_only_stencil);
    }
    if has_stencil {
        if read_only_depth && read_only_stencil {
            vulkan::IMAGE_LAYOUT_DEPTH_STENCIL_READ_ONLY_OPTIMAL
        } else if read_only_depth {
            vulkan::IMAGE_LAYOUT_DEPTH_READ_ONLY_STENCIL_ATTACHMENT_OPTIMAL
        } else if read_only_stencil {
            vulkan::IMAGE_LAYOUT_DEPTH_ATTACHMENT_STENCIL_READ_ONLY_OPTIMAL
        } else {
            vulkan::IMAGE_LAYOUT_DEPTH_STENCIL_ATTACHMENT_OPTIMAL
        }
    } else if read_only_depth {
        vulkan::IMAGE_LAYOUT_DEPTH_STENCIL_READ_ONLY_OPTIMAL
    } else {
        vulkan::IMAGE_LAYOUT_DEPTH_STENCIL_ATTACHMENT_OPTIMAL
    }
}

/// The color attachment of a pass for a target slot.
pub open spec fn pass_color_attachment(format: RenderFormat, info: RenderTargetInfo) -> AttachmentDescription {
    AttachmentDescription {
        flags: 0,
        format: spec_convert_format(format),
        samples: vulkan::SAMPLE_COUNT_1,
        load_op: spec_load_op(info.load_op),
        store_op: spec_store_op(info.store_op),
        stencil_load_op: vulkan::ATTACHMENT_LOAD_OP_DONT_CARE,
        stencil_store_op: vulkan::ATTACHMENT_STORE_OP_DONT_CARE,
        initial_layout: vulkan::IMAGE_LAYOUT_COLOR_ATTACHMENT_OPTIMAL,
        final_layout: vulkan::IMAGE_LAYOUT_COLOR_ATTACHMENT_OPTIMAL,
    }
}

/// The depth-stencil attachment of a pass: read-only aspects are loaded,
/// the others follow the target's load operation.
pub open spec fn pass_depth_attachment(format: RenderFormat, info: RenderTargetInfo, read_only_depth: bool, read_only_stencil: bool) -> AttachmentDescription {
    let layout = spec_depth_stencil_layout(spec_format_has_stencil(format), read_only_depth, read_only_stencil);
    AttachmentDescription {
        flags: 0,
        format: spec_convert_format(format),
        samples: vulkan::SAMPLE_COUNT_1,
        load_op: if read_only_depth { vulkan::ATTACHMENT_LOAD_OP_LOAD } else { spec_load_op(info.load_op) },
        store_op: spec_store_op(info.store_op),
        stencil_load_op: if read_only_stencil { vulkan::ATTACHMENT_LOAD_OP_LOAD } else { spec_load_op(info.load_op) },
        stencil_store_op: spec_store_op(info.store_op),
        initial_layout: layout,
        final_layout: layout,
    }
}

/// Color attachments of the first `n` slots: one per slot with a target.
pub open spec fn pass_color_attachments(formats: Seq<RenderFormat>, present: Seq<bool>, infos: Seq<RenderTargetInfo>, n: nat) -> Seq<AttachmentDescription>
    decreases n,
{
    if n == 0 {
        Seq::empty()
    } else if present[n - 1] {
        pass_color_attachments(formats, present, infos, (n - 1) as nat).push(pass_color_attachment(formats[n - 1], infos[n - 1]))
    } else {
        pass_color_attachments(formats, present, infos, (n - 1) as nat)
    }
}

/// Clear value sources of the first `n` slots.
pub open spec fn pass_color_clears(present: Seq<bool>, n: nat) -> Seq<ClearSource>
    decreases n,
{
    if n == 0 {
        Seq::empty()
    } else if present[n - 1] {
        pass_color_clears(present, (n - 1) as nat).push(ClearSource::Color((n - 1) as u32))
    } else {
        pass_color_clears(present, (n - 1) as nat)
    }
}

/// The reference of a slot: the attachment numbered by the slot itself
/// when it has a target, else unused.
pub open spec fn pass_color_reference(present: bool, slot: int) -> AttachmentReference {
    if present {
        AttachmentReference { attachment: slot as u32, layout: vulkan::IMAGE_LAYOUT_COLOR_ATTACHMENT_OPTIMAL }
    } else {
        unused_reference()
    }
}

/// A render pass for a frame binding: its attachments, the references of
/// its single subpass, the layout of its depth-stencil target and the
/// order of its clear values.
pub struct RenderPassPlan {
    pub attachments: Vec<AttachmentDescription>,
    pub color_references: Vec<AttachmentReference>,
    pub depth_reference: AttachmentReference,
    pub depth_stencil_layout: i32,
    pub clear_sources: Vec<ClearSource>,
}

/// Plan the render pass of a frame binding. Slot `i` has a target when
/// `present[i]`; its view format is `formats[i]` (`Unknown` without a view).
/// A present target always has a view format and an absent one none; the
/// same holds of the depth-stencil target.
pub fn render_pass_plan(
    formats: &Vec<RenderFormat>,
    present: &Vec<bool>,
    infos: &Vec<RenderTargetInfo>,
    depth_format: RenderFormat,
    depth_present: bool,
    read_only_depth: bool,
    read_only_stencil: bool,
    depth_info: RenderTargetInfo,
) -> (r: RenderPassPlan)
    requires
        present@.len() == formats@.len(),
        infos@.len() == formats@.len(),
        formats@.len() <= u32::MAX,
        forall|i: int| 0 <= i < formats@.len() ==> (present@[i] <==> formats@[i] != RenderFormat::Unknown),
        depth_present ==> depth_format != RenderFormat::Unknown,
    ensures
        r.color_references@ == Seq::new(formats@.len(), |i: int| pass_color_reference(present@[i], i)),
        !depth_present ==> {
            &&& r.attachments@ == pass_color_attachments(formats@, present@, infos@, formats@.len())
            &&& r.depth_reference == unused_reference()
            &&& r.depth_stencil_layout == vulkan::IMAGE_LAYOUT_UNDEFINED
            &&& r.clear_sources@ == pass_color_clears(present@, formats@.len())
        },
        depth_present ==> {
            let layout = spec_depth_stencil_layout(spec_format_has_stencil(depth_format), read_only_depth, read_only_stencil);
            &&& r.attachments@ == pass_color_attachments(formats@, present@, infos@, formats@.len()).push(
                pass_depth_attachment(depth_format, depth_info, read_only_depth, read_only_stencil),
            )
            &&& r.depth_reference == AttachmentReference {
                attachment: (r.attachments@.len() - 1) as u32,
                layout,
            }
            &&& r.depth_stencil_layout == layout
            &&& r.clear_sources@ == pass_color_clears(present@, formats@.len()).push(ClearSource::DepthStencil)
        },
{
    let mut attachments: Vec<AttachmentDescription> = Vec::new();
    let mut color_references: Vec<AttachmentReference> = Vec::new();
    let mut clear_sources: Vec<ClearSource> = Vec::new();
    let mut i: usize = 0;
    while i < formats.len()
        invariant
            i <= formats@.len(),
            present@.len() == formats@.len(),
            infos@.len() == formats@.len(),
            formats@.len() <= u32::MAX,
            attachments@ == pass_color_attachments(formats@, present@, infos@, i as nat),
            attachments@.len() <= i,
            clear_sources@ == pass_color_clears(present@, i as nat),
            color_references@ == Seq::new(i as nat, |k: int| pass_color_reference(present@[k], k)),
        decreases formats@.len() - i,
    {
        if present[i] {
            let info = infos[i];
            attachments.push(AttachmentDescription {
                flags: 0,
                format: convert_format(formats[i], false),
                samples: vulkan::SAMPLE_COUNT_1,
                load_op: get_load_op(info.load_op),
                store_op: get_store_op(info.store_op),
                stencil_load_op: vulkan::ATTACHMENT_LOAD_OP_DONT_CARE,
                stencil_store_op: vulkan::ATTACHMENT_STORE_OP_DONT_CARE,
                initial_layout: vulkan::IMAGE_LAYOUT_COLOR_ATTACHMENT_OPTIMAL,
                final_layout: vulkan::IMAGE_LAYOUT_COLOR_ATTACHMENT_OPTIMAL,
            });
            clear_sources.push(ClearSource::Color(i as u32));
            color_references.push(AttachmentReference { attachment: i as u32, layout: vulkan::IMAGE_LAYOUT_COLOR_ATTACHMENT_OPTIMAL });
        } else {
            color_references.push(AttachmentReference { attachment: vulkan::ATTACHMENT_UNUSED, layout: vulkan::IMAGE_LAYOUT_UNDEFINED });
        }
        i += 1;
        assert(color_references@ =~= Seq::new(i as nat, |k: int| pass_color_reference(present@[k], k)));
    }
    if depth_present {
        let layout = depth_stencil_layout(format_has_stencil(depth_format), read_only_depth, read_only_stencil);
        let load = get_load_op(depth_info.load_op);
        let store = get_store_op(depth_info.store_op);
        attachments.push(AttachmentDescription {
            flags: 0,
            format: convert_format(depth_format, false),
            samples: vulkan::SAMPLE_COUNT_1,
            load_op: if read_only_depth { vulkan::ATTACHMENT_LOAD_OP_LOAD } else { load },
            store_op: store,
            stencil_load_op: if read_only_stencil { vulkan::ATTACHMENT_LOAD_OP_LOAD } else { load },
            stencil_store_op: store,
            initial_layout: layout,
            final_layout: layout,
        });
        clear_sources.push(ClearSource::DepthStencil);
        let depth_reference = AttachmentReference { attachment: (attachments.len() - 1) as u32, layout };
        RenderPassPlan { attachments, color_references, depth_reference, depth_stencil_layout: layout, clear_sources }
    } else {
        RenderPassPlan {
            attachments,
            color_references,
            depth_reference: AttachmentReference { attachment: vulkan::ATTACHMENT_UNUSED, layout: vulkan::IMAGE_LAYOUT_UNDEFINED },
            depth_stencil_layout: vulkan::IMAGE_LAYOUT_UNDEFINED,
            clear_sources,
        }
    }
}

// ---------------------------------------------------------------------
// Frame bindings

/// A render target view of a frame binding: the texture it views (its
/// image and size), the view's dimension, format, mip and first slice.
#[derive(Clone, Copy, Debug, PartialEq, Eq, Structural)]
pub struct RenderTargetView {
    pub image: u64,
    pub width: u32,
    pub height: u32,
    pub dimension: RenderViewDimension,
    pub format: RenderFormat,
    pub mip_slice: u32,
    pub first_array_slice: u32,
}

/// A view to create (`VkImageViewCreateInfo` without the swizzle, which is
/// always the identity): one mip level and one layer.
#[derive(Clone, Copy, Debug, PartialEq, Eq, Structural)]
pub struct ImageViewInfo {
    pub image: u64,
    pub view_type: i32,
    pub format: i32,
    pub aspect_mask: u32,
    pub base_mip_level: u32,
    pub level_count: u32,
    pub base_array_layer: u32,
    pub layer_count: u32,
}

/// Dimensions a render target can be viewed as.
pub open spec fn render_target_dimension_ok(dimension: RenderViewDimension) -> bool {
    dimension == RenderViewDimension::Tex1d || dimension == RenderViewDimension::Tex1dArray
        || dimension == RenderViewDimension::Tex2d || dimension == RenderViewDimension::Tex2dArray
        || dimension == RenderViewDimension::Tex3d
}

/// The color view of a render target: its mip, and its first slice for
/// array dimensions.
pub open spec fn spec_render_target_view_info(v: RenderTargetView) -> ImageViewInfo {
    ImageViewInfo {
        image: v.image,
        view_type: spec_view_dimension_to_view_type(v.dimension),
        format: spec_convert_format(v.format),
        aspect_mask: vulkan::IMAGE_ASPECT_COLOR,
        base_mip_level: v.mip_slice,
        level_count: 1,
        base_array_layer: if v.dimension == RenderViewDimension::Tex1dArray || v.dimension == RenderViewDimension::Tex2dArray {
            v.first_array_slice
        } else {
            0
        },
        layer_count: 1,
    }
}

pub fn render_target_view_info(v: &RenderTargetView) -> (r: ImageViewInfo)
    requires
        render_target_dimension_ok(v.dimension),
    ensures
        r == spec_render_target_view_info(*v),
{
    let base_array_layer = match v.dimension {
        RenderViewDimension::Tex1dArray | RenderViewDimension::Tex2dArray => v.first_array_slice,
        _ => 0,
    };
    ImageViewInfo {
        image: v.image,
        view_type: convert_view_dimension_to_view_type(v.dimension),
        format: convert_format(v.format, false),
        aspect_mask: vulkan::IMAGE_ASPECT_COLOR,
        base_mip_level: v.mip_slice,
        level_count: 1,
        base_array_layer,
        layer_count: 1,
    }
}

/// Aspects of a depth-stencil view format.
pub open spec fn spec_depth_view_aspect(format: RenderFormat) -> u32 {
    if format == RenderFormat::D16Unorm || format == RenderFormat::D32Float {
        vulkan::IMAGE_ASPECT_DEPTH
    } else {
        vulkan::IMAGE_ASPECT_DEPTH | vulkan::IMAGE_ASPECT_STENCIL
    }
}

/// Depth-stencil formats a frame binding accepts.
pub open spec fn depth_view_format_ok(format: RenderFormat) -> bool {
    format == RenderFormat::D16Unorm || format == RenderFormat::D32Float || format == RenderFormat::D32FloatS8Uint
}

pub fn depth_view_aspect(format: RenderFormat) -> (r: u32)
    requires
        depth_view_format_ok(format),
    ensures
        r == spec_depth_view_aspect(format),
{
    match format {
        RenderFormat::D16Unorm | RenderFormat::D32Float => vulkan::IMAGE_ASPECT_DEPTH,
        _ => vulkan::IMAGE_ASPECT_DEPTH | vulkan::IMAGE_ASPECT_STENCIL,
    }
}

/// A depth-stencil view of a frame binding: the texture it views (its
/// image, size and supported states), the view's dimension, format and mip.
#[derive(Clone, Copy, Debug, PartialEq, Eq, Structural)]
pub struct DepthStencilView {
    pub image: u64,
    pub width: u32,
    pub height: u32,
    pub dimension: RenderViewDimension,
    pub format: RenderFormat,
    pub mip_slice: u32,
    pub supported_states: RenderResourceStates,
}

/// The view of a depth-stencil target: its whole first mip and layer, with
/// the depth aspect, and the stencil aspect where the format has one.
pub open spec fn spec_depth_stencil_view_info(d: DepthStencilView) -> ImageViewInfo {
    ImageViewInfo {
        image: d.image,
        view_type: spec_view_dimension_to_view_type(d.dimension),
        format: spec_convert_format(d.format),
        aspect_mask: spec_depth_view_aspect(d.format),
        base_mip_level: 0,
        level_count: 1,
        base_array_layer: 0,
        layer_count: 1,
    }
}

pub fn depth_stencil_view_info(d: &DepthStencilView) -> (r: ImageViewInfo)
    requires
        d.dimension != RenderViewDimension::Buffer,
        depth_view_format_ok(d.format),
    ensures
        r == spec_depth_stencil_view_info(*d),
{
    ImageViewInfo {
        image: d.image,
        view_type: convert_view_dimension_to_view_type(d.dimension),
        format: convert_format(d.format, false),
        aspect_mask: depth_view_aspect(d.format),
        base_mip_level: 0,
        level_count: 1,
        base_array_layer: 0,
        layer_count: 1,
    }
}

/// The views of a frame binding: one per render target, in order, then the
/// depth-stencil view if there is one.
pub open spec fn spec_frame_binding_views(targets: Seq<RenderTargetView>, depth: Option<DepthStencilView>) -> Seq<ImageViewInfo> {
    let colors = targets.map_values(|v: RenderTargetView| spec_render_target_view_info(v));
    match depth {
        Some(d) => colors.push(spec_depth_stencil_view_info(d)),
        None => colors,
    }
}

/// Views a frame binding creates, and the size of its frame buffer.
pub struct FrameBindingPlan {
    pub render_target_count: u32,
    pub image_views: Vec<ImageViewInfo>,
    pub width: u32,
    pub height: u32,
}

/// Each view has the width, height and mip of the view before it, unless
/// that one's value is zero; the depth-stencil view comes after the
/// render targets.
pub open spec fn views_agree(targets: Seq<RenderTargetView>, depth: Option<DepthStencilView>) -> bool {
    &&& forall|a: int| 1 <= a < targets.len() ==> {
        &&& (targets[a - 1].width == 0 || targets[a - 1].width == (#[trigger] targets[a]).width)
        &&& (targets[a - 1].height == 0 || targets[a - 1].height == targets[a].height)
        &&& (targets[a - 1].mip_slice == 0 || targets[a - 1].mip_slice == targets[a].mip_slice)
    }
    &&& (targets.len() > 0 && depth is Some) ==> {
        let last = targets.last();
        let d = depth->0;
        &&& (last.width == 0 || last.width == d.width)
        &&& (last.height == 0 || last.height == d.height)
        &&& (last.mip_slice == 0 || last.mip_slice == d.mip_slice)
    }
}

/// Width, height and mip of a frame binding: those of its views, or zero
/// without any.
pub open spec fn frame_binding_extent(targets: Seq<RenderTargetView>, depth: Option<DepthStencilView>) -> (u32, u32, u32) {
    match depth {
        Some(d) => (d.width, d.height, d.mip_slice),
        None => if targets.len() > 0 {
            (targets.last().width, targets.last().height, targets.last().mip_slice)
        } else {
            (0, 0, 0)
        },
    }
}

/// Plan a frame binding from its render target views (the leading slots
/// that have one, in order) and its depth-stencil view. A view is created
/// for each render target and then one for the depth-stencil target; the
/// frame buffer has the views' size at their mip.
#[verifier::rlimit(40)]
#[verifier::spinoff_prover]
pub fn frame_binding_plan(targets: &Vec<RenderTargetView>, depth: Option<DepthStencilView>) -> (r: FrameBindingPlan)
    requires
        targets@.len() <= MAX_RENDER_TARGET_COUNT,
        forall|i: int| 0 <= i < targets@.len() ==> render_target_dimension_ok(#[trigger] targets@[i].dimension),
        views_agree(targets@, depth),
        depth matches Some(d) ==> {
            &&& depth_view_format_ok(d.format)
            &&& d.dimension != RenderViewDimension::Buffer
            &&& (d.supported_states.spec_contains(RenderResourceStates::DEPTH_WRITE)
                || d.supported_states.spec_contains(RenderResourceStates::DEPTH_READ))
        },
        frame_binding_extent(targets@, depth).2 < 32,
    ensures
        r.render_target_count == targets@.len(),
        r.image_views@ == spec_frame_binding_views(targets@, depth),
        r.width == frame_binding_extent(targets@, depth).0 >> frame_binding_extent(targets@, depth).2,
        r.height == frame_binding_extent(targets@, depth).1 >> frame_binding_extent(targets@, depth).2,
{
    let mut image_views: Vec<ImageViewInfo> = Vec::new();
    let mut view_width: u32 = 0;
    let mut view_height: u32 = 0;
    let mut view_mip: u32 = 0;
    let mut i: usize = 0;
    while i < targets.len()
        invariant
            i <= targets@.len(),
            targets@.len() <= MAX_RENDER_TARGET_COUNT,
            forall|k: int| 0 <= k < targets@.len() ==> render_target_dimension_ok(#[trigger] targets@[k].dimension),
            image_views@ == targets@.take(i as int).map_values(|v: RenderTargetView| spec_render_target_view_info(v)),
            i == 0 ==> view_width == 0 && view_height == 0 && view_mip == 0,
            i > 0 ==> view_width == targets@[i - 1].width && view_height == targets@[i - 1].height && view_mip == targets@[i - 1].mip_slice,
        decreases targets@.len() - i,
    {
        let v = targets[i];
        view_width = v.width;
        view_height = v.height;
        view_mip = v.mip_slice;
        image_views.push(render_target_view_info(&v));
        i += 1;
        assert(image_views@ =~= targets@.take(i as int).map_values(|w: RenderTargetView| spec_render_target_view_info(w)));
    }
    assert(targets@.take(i as int) =~= targets@);
    match depth {
        Some(d) => {
            view_width = d.width;
            view_height = d.height;
            view_mip = d.mip_slice;
            image_views.push(depth_stencil_view_info(&d));
        },
        None => {},
    }
    FrameBindingPlan {
        render_target_count: targets.len() as u32,
        image_views,
        width: view_width >> view_mip,
        height: view_height >> view_mip,
    }
}

// ---------------------------------------------------------------------
// Beginning and ending a pass

/// First render target slot of a pass: swap chain frame bindings hold one
/// group of slots per back buffer.
pub open spec fn spec_rtv_base_index(back_buffer_index: Option<u32>) -> int {
    match back_buffer_index {
        Some(b) => b * MAX_RENDER_TARGET_COUNT,
        None => 0,
    }
}

/// The handles of the present targets among the slots in order.
pub open spec fn present_handles(slots: Seq<Option<u64>>) -> Seq<u64>
    decreases slots.len(),
{
    if slots.len() == 0 {
        Seq::empty()
    } else {
        match slots.last() {
            Some(h) => present_handles(slots.drop_last()).push(h),
            None => present_handles(slots.drop_last()),
        }
    }
}

/// The render targets a pass moves to the render target state: the present
/// handles among its `render_target_count` slots from its base slot on.
pub fn render_pass_targets(handles: &Vec<Option<u64>>, back_buffer_index: Option<u32>, render_target_count: u32) -> (r: Vec<u64>)
    requires
        spec_rtv_base_index(back_buffer_index) + render_target_count <= handles@.len(),
        spec_rtv_base_index(back_buffer_index) + render_target_count <= u32::MAX,
    ensures
        r@ == present_handles(handles@.subrange(
            spec_rtv_base_index(back_buffer_index),
            spec_rtv_base_index(back_buffer_index) + render_target_count,
        )),
{
    let base: u32 = match back_buffer_index {
        Some(b) => b * (MAX_RENDER_TARGET_COUNT as u32),
        None => 0,
    };
    let ghost lo = base as int;
    let mut r: Vec<u64> = Vec::new();
    let mut t: u32 = 0;
    while t < render_target_count
        invariant
            t <= render_target_count,
            lo == spec_rtv_base_index(back_buffer_index),
            base == lo,
            lo + render_target_count <= handles@.len(),
            lo + render_target_count <= u32::MAX,
            r@ == present_handles(handles@.subrange(lo, lo + t)),
        decreases render_target_count - t,
    {
        proof {
            assert(handles@.subrange(lo, lo + t + 1).drop_last() =~= handles@.subrange(lo, lo + t));
            assert(handles@.subrange(lo, lo + t + 1).last() == handles@[lo + t]);
        }
        match handles[(base + t) as usize] {
            Some(h) => r.push(h),
            None => {},
        }
        t += 1;
    }
    r
}

/// State a depth-stencil target of a pass is moved to: depth read when the
/// view is read-only for depth, else depth write. A view read-only for
/// depth may not also be read-only for stencil.
pub open spec fn spec_pass_depth_state(read_only_depth: bool) -> RenderResourceStates {
    if read_only_depth {
        RenderResourceStates { bits: RenderResourceStates::DEPTH_READ }
    } else {
        RenderResourceStates { bits: RenderResourceStates::DEPTH_WRITE }
    }
}

pub fn pass_depth_state(read_only_depth: bool, read_only_stencil: bool) -> (r: RenderResourceStates)
    requires
        read_only_depth ==> !read_only_stencil,
    ensures
        r == spec_pass_depth_state(read_only_depth),
        r.bits == (if read_only_depth { RenderResourceStates::DEPTH_READ } else { RenderResourceStates::DEPTH_WRITE }),
        spec_get_image_access_type(r) == (if read_only_depth {
            AccessType::DepthStencilAttachmentRead
        } else {
            AccessType::DepthStencilAttachmentWrite
        }),
{
    proof {
        lemma_single_state_tables();
    }
    if read_only_depth {
        RenderResourceStates { bits: RenderResourceStates::DEPTH_READ }
    } else {
        RenderResourceStates { bits: RenderResourceStates::DEPTH_WRITE }
    }
}

/// Whether ending a pass sends its depth-stencil target back to its
/// default state: when the pass used a read-only layout for it.
pub fn restores_depth_stencil(depth_stencil_layout: i32) -> (r: bool)
    ensures
        r == (depth_stencil_layout != vulkan::IMAGE_LAYOUT_DEPTH_STENCIL_ATTACHMENT_OPTIMAL),
{
    depth_stencil_layout != vulkan::IMAGE_LAYOUT_DEPTH_STENCIL_ATTACHMENT_OPTIMAL
}

} // verus!
