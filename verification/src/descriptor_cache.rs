//! The descriptor sets cached on a set of shader views: each is keyed by
//! the pipeline, the set index and hashes of the image layouts that the
//! views are in, and a miss plans the writes of a new set.

use vstd::prelude::*;
use crate::vulkan;
use crate::assoc::AssocList;
use crate::compile::TrackerEntry;
use crate::states::RenderResourceStates;
use crate::states::has_buffer_only_state;
use crate::states::spec_get_image_layout;
use crate::states::get_image_layout;
use crate::types::DescriptorSetLayout;
use crate::types::DescriptorSetLayoutBinding;
use crate::types::layouts_view;
use crate::descriptors::SRV_OFFSET;
use crate::descriptors::UAV_OFFSET;
use crate::descriptors::set_slot;
use crate::descriptors::binding_slot;
use crate::descriptors::set_position;
use crate::descriptors::binding_position;
use crate::hashing::codes_digest;
use crate::hashing::hash_codes;

verus! {

/// A descriptor set cached on shader views, with the key it was made for.
#[derive(Clone, Copy, Debug, PartialEq, Eq, Structural)]
pub struct CachedDescriptorSet {
    pub set_index: u32,
    pub srv_layout_hash: u64,
    pub uav_layout_hash: u64,
    pub pipeline_state: u64,
    pub descriptor_pool: u64,
    pub descriptor_set: u64,
}

/// What a view of a shader view set looks at.
#[derive(Clone, Copy, Debug, PartialEq, Eq, Structural)]
pub enum ViewResource {
    /// A texture, with the state it rests in.
    Texture { default_state: RenderResourceStates },
    /// A buffer and its size.
    Buffer { buffer: u64, size: usize },
    /// Anything else.
    Other,
}

/// One view of a shader view set: the resource, what it is, and the image
/// view and buffer view created for it (0 where there is none).
#[derive(Clone, Copy, Debug, PartialEq, Eq, Structural)]
pub struct ShaderViewBinding {
    pub resource: u64,
    pub kind: ViewResource,
    pub image_view: u64,
    pub buffer_view: u64,
}

/// The image layout a view's resource is in: for a texture, the layout of
/// its tracked state or else of its default state; undefined otherwise.
pub open spec fn spec_descriptor_image_layout(tracker: Map<u64, TrackerEntry>, v: ShaderViewBinding) -> i32 {
    match v.kind {
        ViewResource::Texture { default_state } => if tracker.contains_key(v.resource) {
            spec_get_image_layout(tracker[v.resource].state)
        } else {
            spec_get_image_layout(default_state)
        },
        _ => vulkan::IMAGE_LAYOUT_UNDEFINED,
    }
}

/// Views whose layouts can be looked up: textures are neither tracked nor
/// resting in a buffer-only state.
pub open spec fn view_layout_ok(tracker: Map<u64, TrackerEntry>, v: ShaderViewBinding) -> bool {
    match v.kind {
        ViewResource::Texture { default_state } => !has_buffer_only_state(default_state)
            && (tracker.contains_key(v.resource) ==> !has_buffer_only_state(tracker[v.resource].state)),
        _ => true,
    }
}

pub fn descriptor_image_layout(tracker: &AssocList<TrackerEntry>, v: &ShaderViewBinding) -> (r: i32)
    requires
        tracker.wf(),
        view_layout_ok(tracker@, *v),
    ensures
        r == spec_descriptor_image_layout(tracker@, *v),
{
    match v.kind {
        ViewResource::Texture { default_state } => match tracker.get(v.resource) {
            Some(entry) => get_image_layout(entry.state),
            None => get_image_layout(default_state),
        },
        _ => vulkan::IMAGE_LAYOUT_UNDEFINED,
    }
}

/// The layouts of a list of views, in order.
pub open spec fn view_layouts(tracker: Map<u64, TrackerEntry>, views: Seq<ShaderViewBinding>) -> Seq<i32> {
    views.map_values(|v: ShaderViewBinding| spec_descriptor_image_layout(tracker, v))
}

/// Hash of the layouts of a list of views.
pub fn layout_hash(tracker: &AssocList<TrackerEntry>, views: &Vec<ShaderViewBinding>) -> (r: u64)
    requires
        tracker.wf(),
        forall|i: int| 0 <= i < views@.len() ==> view_layout_ok(tracker@, #[trigger] views@[i]),
    ensures
        r == codes_digest(view_layouts(tracker@, views@)),
{
    let mut codes: Vec<i32> = Vec::new();
    let mut i: usize = 0;
    while i < views.len()
        invariant
            tracker.wf(),
            forall|k: int| 0 <= k < views@.len() ==> view_layout_ok(tracker@, #[trigger] views@[k]),
            i <= views@.len(),
            codes@ == view_layouts(tracker@, views@.take(i as int)),
        decreases views@.len() - i,
    {
        codes.push(descriptor_image_layout(tracker, &views[i]));
        i += 1;
        assert(codes@ =~= view_layouts(tracker@, views@.take(i as int)));
    }
    assert(views@.take(i as int) =~= views@);
    hash_codes(&codes)
}

/// An entry made for the given key.
pub open spec fn key_matches(e: CachedDescriptorSet, pipeline_state: u64, set_index: u32, srv_hash: u64, uav_hash: u64) -> bool {
    e.pipeline_state == pipeline_state && e.set_index == set_index && e.srv_layout_hash == srv_hash
        && e.uav_layout_hash == uav_hash
}

/// The first cached set made for the key.
pub open spec fn spec_find_cached(cache: Seq<CachedDescriptorSet>, pipeline_state: u64, set_index: u32, srv_hash: u64, uav_hash: u64) -> Option<CachedDescriptorSet>
    decreases cache.len(),
{
    if cache.len() == 0 {
        None
    } else if key_matches(cache[0], pipeline_state, set_index, srv_hash, uav_hash) {
        Some(cache[0])
    } else {
        spec_find_cached(cache.drop_first(), pipeline_state, set_index, srv_hash, uav_hash)
    }
}

/// `r` is what a lookup of the key should give: the first cached set whose
/// pipeline state, set index, SRV layout hash and UAV layout hash all equal
/// the key's, or nothing when no cached set has all four.
pub open spec fn finds_first_with_key(
    cache: Seq<CachedDescriptorSet>,
    pipeline_state: u64,
    set_index: u32,
    srv_hash: u64,
    uav_hash: u64,
    r: Option<CachedDescriptorSet>,
) -> bool {
    &&& r matches Some(e) ==> {
        &&& e.pipeline_state == pipeline_state
        &&& e.set_index == set_index
        &&& e.srv_layout_hash == srv_hash
        &&& e.uav_layout_hash == uav_hash
        &&& exists|i: int| 0 <= i < cache.len() && cache[i] == e && forall|j: int| 0 <= j < i ==> !(
            cache[j].pipeline_state == pipeline_state && cache[j].set_index == set_index
                && cache[j].srv_layout_hash == srv_hash && cache[j].uav_layout_hash == uav_hash)
    }
    &&& r is None <==> forall|i: int| 0 <= i < cache.len() ==> !(
        cache[i].pipeline_state == pipeline_state && cache[i].set_index == set_index
            && cache[i].srv_layout_hash == srv_hash && cache[i].uav_layout_hash == uav_hash)
}

/// A cached descriptor set is reused only for the very key it was made
/// for: a lookup finds the first cached set that agrees with the key in
/// pipeline state, set index and both layout hashes, and misses when no
/// set agrees in all four (a set made for other image layouts is never
/// reused).
pub proof fn lemma_find_cached_exact(cache: Seq<CachedDescriptorSet>, pipeline_state: u64, set_index: u32, srv_hash: u64, uav_hash: u64)
    ensures
        finds_first_with_key(cache, pipeline_state, set_index, srv_hash, uav_hash,
            spec_find_cached(cache, pipeline_state, set_index, srv_hash, uav_hash)),
    decreases cache.len(),
{
    if cache.len() > 0 {
        let rest = cache.drop_first();
        lemma_find_cached_exact(rest, pipeline_state, set_index, srv_hash, uav_hash);
        let r = spec_find_cached(cache, pipeline_state, set_index, srv_hash, uav_hash);
        if cache[0].pipeline_state == pipeline_state && cache[0].set_index == set_index
            && cache[0].srv_layout_hash == srv_hash && cache[0].uav_layout_hash == uav_hash {
            assert(r == Some(cache[0]));
        } else {
            assert(r == spec_find_cached(rest, pipeline_state, set_index, srv_hash, uav_hash));
            match r {
                Some(e) => {
                    let i = choose|i: int| 0 <= i < rest.len() && rest[i] == e && forall|j: int| 0 <= j < i ==> !(
                        rest[j].pipeline_state == pipeline_state && rest[j].set_index == set_index
                            && rest[j].srv_layout_hash == srv_hash && rest[j].uav_layout_hash == uav_hash);
                    assert(cache[i + 1] == e);
                    assert forall|j: int| 0 <= j < i + 1 implies !(
                        cache[j].pipeline_state == pipeline_state && cache[j].set_index == set_index
                            && cache[j].srv_layout_hash == srv_hash && cache[j].uav_layout_hash == uav_hash) by {
                        if j > 0 {
                            assert(cache[j] == rest[j - 1]);
                        }
                    }
                    assert(!(r is None));
                    assert(!(forall|k: int| 0 <= k < cache.len() ==> !(
                        cache[k].pipeline_state == pipeline_state && cache[k].set_index == set_index
                            && cache[k].srv_layout_hash == srv_hash && cache[k].uav_layout_hash == uav_hash)));
                },
                None => {
                    assert forall|k: int| 0 <= k < cache.len() implies !(
                        cache[k].pipeline_state == pipeline_state && cache[k].set_index == set_index
                            && cache[k].srv_layout_hash == srv_hash && cache[k].uav_layout_hash == uav_hash) by {
                        if k > 0 {
                            assert(cache[k] == rest[k - 1]);
                        }
                    }
                },
            }
        }
    }
}

pub fn find_cached_set(cache: &Vec<CachedDescriptorSet>, pipeline_state: u64, set_index: u32, srv_hash: u64, uav_hash: u64) -> (r: Option<CachedDescriptorSet>)
    ensures
        r == spec_find_cached(cache@, pipeline_state, set_index, srv_hash, uav_hash),
        finds_first_with_key(cache@, pipeline_state, set_index, srv_hash, uav_hash, r),
{
    proof {
        lemma_find_cached_exact(cache@, pipeline_state, set_index, srv_hash, uav_hash);
    }
    let ghost found = spec_find_cached(cache@, pipeline_state, set_index, srv_hash, uav_hash);
    let mut i: usize = 0;
    assert(cache@.skip(0) =~= cache@);
    while i < cache.len()
        invariant
            i <= cache@.len(),
            spec_find_cached(cache@, pipeline_state, set_index, srv_hash, uav_hash)
                == spec_find_cached(cache@.skip(i as int), pipeline_state, set_index, srv_hash, uav_hash),
            found == spec_find_cached(cache@, pipeline_state, set_index, srv_hash, uav_hash),
            finds_first_with_key(cache@, pipeline_state, set_index, srv_hash, uav_hash, found),
        decreases cache@.len() - i,
    {
        proof {
            assert(cache@.skip(i as int).drop_first() =~= cache@.skip(i + 1));
            assert(cache@.skip(i as int)[0] == cache@[i as int]);
        }
        let e = cache[i];
        if e.pipeline_state == pipeline_state && e.set_index == set_index && e.srv_layout_hash == srv_hash
            && e.uav_layout_hash == uav_hash {
            return Some(e);
        }
        i += 1;
    }
    None
}

/// A set cached after a miss is what the next lookup of its key finds.
pub proof fn lemma_cache_hit_after_record(cache: Seq<CachedDescriptorSet>, e: CachedDescriptorSet)
    requires
        spec_find_cached(cache, e.pipeline_state, e.set_index, e.srv_layout_hash, e.uav_layout_hash) is None,
    ensures
        spec_find_cached(cache.push(e), e.pipeline_state, e.set_index, e.srv_layout_hash, e.uav_layout_hash) == Some(e),
    decreases cache.len(),
{
    if cache.len() > 0 {
        assert(cache.push(e).drop_first() =~= cache.drop_first().push(e));
        lemma_cache_hit_after_record(cache.drop_first(), e);
    } else {
        assert(cache.push(e)[0] == e);
    }
}

/// Memoizing twice is memoizing once: after a miss, the set created for
/// the key of a binding (its pipeline, set index and the layout hashes of
/// its views) and recorded in the cache is what memoizing the same binding
/// again finds, with the same tracker, views and pipeline.
pub proof fn lemma_memoize_twice(
    tracker: Map<u64, TrackerEntry>,
    set_index: u32,
    pipeline_state: u64,
    srvs: Seq<ShaderViewBinding>,
    uavs: Seq<ShaderViewBinding>,
    cache: Seq<CachedDescriptorSet>,
    descriptor_pool: u64,
    descriptor_set: u64,
)
    requires
        spec_find_cached(
            cache, pipeline_state, set_index,
            codes_digest(view_layouts(tracker, srvs)), codes_digest(view_layouts(tracker, uavs)),
        ) is None,
    ensures
        ({
            let srv_hash = codes_digest(view_layouts(tracker, srvs));
            let uav_hash = codes_digest(view_layouts(tracker, uavs));
            let e = CachedDescriptorSet {
                set_index,
                srv_layout_hash: srv_hash,
                uav_layout_hash: uav_hash,
                pipeline_state,
                descriptor_pool,
                descriptor_set,
            };
            spec_find_cached(cache.push(e), pipeline_state, set_index, srv_hash, uav_hash) == Some(e)
        }),
{
    let e = CachedDescriptorSet {
        set_index,
        srv_layout_hash: codes_digest(view_layouts(tracker, srvs)),
        uav_layout_hash: codes_digest(view_layouts(tracker, uavs)),
        pipeline_state,
        descriptor_pool,
        descriptor_set,
    };
    lemma_cache_hit_after_record(cache, e);
}

/// The buffer a descriptor write points at, and the range of it.
#[derive(Clone, Copy, Debug, PartialEq, Eq, Structural)]
pub struct BufferInfo {
    pub buffer: u64,
    pub range: u64,
}

/// The image view a descriptor write points at, and its layout.
#[derive(Clone, Copy, Debug, PartialEq, Eq, Structural)]
pub struct ImageInfo {
    pub layout: i32,
    pub view: u64,
}

/// A write of one descriptor of a new set: its binding and type, and the
/// buffer (with its range) or image (with its layout and view) written.
#[derive(Clone, Copy, Debug, PartialEq, Eq, Structural)]
pub struct DescriptorWrite {
    pub binding: u32,
    pub descriptor_type: i32,
    pub buffer_info: Option<BufferInfo>,
    pub image_info: Option<ImageInfo>,
}

/// Writes planned so far, and the numbers of buffer and image infos used.
pub struct WriteState {
    pub writes: Seq<DescriptorWrite>,
    pub buffers: nat,
    pub images: nat,
}

/// The state after planning the writes of the first `n` views, numbered
/// from binding `offset`: a view whose binding the layout has is written;
/// a buffer gets a buffer info (unless the binding is a uniform texel
/// buffer) and a texture an image info. Each write points at the infos
/// from the one it added on, so only the first info of each kind reaches a
/// write.
pub open spec fn plan_state(
    tracker: Map<u64, TrackerEntry>,
    views: Seq<ShaderViewBinding>,
    bindings: Seq<DescriptorSetLayoutBinding>,
    offset: u32,
    start: (nat, nat),
    n: nat,
) -> WriteState
    decreases n,
{
    if n == 0 {
        WriteState { writes: Seq::empty(), buffers: start.0, images: start.1 }
    } else {
        let prev = plan_state(tracker, views, bindings, offset, start, (n - 1) as nat);
        let v = views[n - 1];
        let binding = (offset + n - 1) as u32;
        let slot = binding_slot(bindings, binding);
        if slot < 0 {
            prev
        } else {
            let ty = bindings[slot].descriptor_type;
            match v.kind {
                ViewResource::Buffer { buffer, size } => if ty != vulkan::DESCRIPTOR_TYPE_UNIFORM_TEXEL_BUFFER {
                    WriteState {
                        writes: prev.writes.push(DescriptorWrite {
                            binding,
                            descriptor_type: ty,
                            buffer_info: if prev.buffers == 0 { Some(BufferInfo { buffer, range: size as u64 }) } else { None },
                            image_info: None,
                        }),
                        buffers: prev.buffers + 1,
                        images: prev.images,
                    }
                } else {
                    WriteState {
                        writes: prev.writes.push(DescriptorWrite { binding, descriptor_type: ty, buffer_info: None, image_info: None }),
                        buffers: prev.buffers,
                        images: prev.images,
                    }
                },
                _ => WriteState {
                    writes: prev.writes.push(DescriptorWrite {
                        binding,
                        descriptor_type: ty,
                        buffer_info: None,
                        image_info: if prev.images == 0 {
                            Some(ImageInfo { layout: spec_descriptor_image_layout(tracker, v), view: v.image_view })
                        } else {
                            None
                        },
                    }),
                    buffers: prev.buffers,
                    images: prev.images + 1,
                },
            }
        }
    }
}

/// Views whose writes can be planned: every written view is a buffer or a
/// texture without a typed buffer view, and no third info of a kind is
/// needed (the info slices cannot reach past the second).
pub open spec fn plan_ok(
    tracker: Map<u64, TrackerEntry>,
    views: Seq<ShaderViewBinding>,
    bindings: Seq<DescriptorSetLayoutBinding>,
    offset: u32,
    start: (nat, nat),
    n: nat,
) -> bool
    decreases n,
{
    if n == 0 {
        true
    } else {
        let prev = plan_state(tracker, views, bindings, offset, start, (n - 1) as nat);
        let v = views[n - 1];
        let slot = binding_slot(bindings, (offset + n - 1) as u32);
        &&& plan_ok(tracker, views, bindings, offset, start, (n - 1) as nat)
        &&& offset + n - 1 <= u32::MAX
        &&& view_layout_ok(tracker, v)
        &&& slot >= 0 ==> {
            &&& !(v.kind is Other)
            &&& v.buffer_view == 0
            &&& (v.kind is Buffer && bindings[slot].descriptor_type != vulkan::DESCRIPTOR_TYPE_UNIFORM_TEXEL_BUFFER) ==> prev.buffers <= 1
            &&& v.kind is Texture ==> prev.images <= 1
        }
    }
}

/// Plan the writes of a list of views against a layout's bindings.
fn plan_view_writes(
    tracker: &AssocList<TrackerEntry>,
    views: &Vec<ShaderViewBinding>,
    bindings: &Vec<DescriptorSetLayoutBinding>,
    offset: u32,
    writes: &mut Vec<DescriptorWrite>,
    buffers: &mut usize,
    images: &mut usize,
)
    requires
        tracker.wf(),
        plan_ok(tracker@, views@, bindings@, offset, (*old(buffers) as nat, *old(images) as nat), views@.len()),
        *old(buffers) <= 2,
        *old(images) <= 2,
    ensures
        ({
            let st = plan_state(tracker@, views@, bindings@, offset, (*old(buffers) as nat, *old(images) as nat), views@.len());
            &&& final(writes)@ == old(writes)@ + st.writes
            &&& *final(buffers) == st.buffers
            &&& *final(images) == st.images
            &&& *final(buffers) <= 2
            &&& *final(images) <= 2
        }),
{
    let ghost start = (*buffers as nat, *images as nat);
    let ghost base = writes@;
    let mut i: usize = 0;
    proof {
        lemma_plan_ok_prefix(tracker@, views@, bindings@, offset, start, views@.len(), 0);
    }
    while i < views.len()
        invariant
            tracker.wf(),
            i <= views@.len(),
            plan_ok(tracker@, views@, bindings@, offset, start, views@.len()),
            ({
                let st = plan_state(tracker@, views@, bindings@, offset, start, i as nat);
                &&& writes@ == base + st.writes
                &&& *buffers == st.buffers
                &&& *images == st.images
            }),
            *buffers <= 2,
            *images <= 2,
        decreases views@.len() - i,
    {
        proof {
            lemma_plan_ok_prefix(tracker@, views@, bindings@, offset, start, views@.len(), (i + 1) as nat);
        }
        let v = views[i];
        let binding = offset + i as u32;
        match binding_position(bindings, binding) {
            None => {},
            Some(slot) => {
                let ty = bindings[slot].descriptor_type;
                match v.kind {
                    ViewResource::Buffer { buffer, size } => {
                        if ty != vulkan::DESCRIPTOR_TYPE_UNIFORM_TEXEL_BUFFER {
                            let info = if *buffers == 0 { Some(BufferInfo { buffer, range: size as u64 }) } else { None };
                            writes.push(DescriptorWrite { binding, descriptor_type: ty, buffer_info: info, image_info: None });
                            *buffers = *buffers + 1;
                        } else {
                            writes.push(DescriptorWrite { binding, descriptor_type: ty, buffer_info: None, image_info: None });
                        }
                    },
                    _ => {
                        let info = if *images == 0 {
                            Some(ImageInfo { layout: descriptor_image_layout(tracker, &v), view: v.image_view })
                        } else {
                            None
                        };
                        writes.push(DescriptorWrite { binding, descriptor_type: ty, buffer_info: None, image_info: info });
                        *images = *images + 1;
                    },
                }
            },
        }
        i += 1;
        proof {
            let st = plan_state(tracker@, views@, bindings@, offset, start, i as nat);
            assert(writes@ =~= base + st.writes);
        }
    }
}

/// Soundness of a plan carries over to its prefixes.
proof fn lemma_plan_ok_prefix(
    tracker: Map<u64, TrackerEntry>,
    views: Seq<ShaderViewBinding>,
    bindings: Seq<DescriptorSetLayoutBinding>,
    offset: u32,
    start: (nat, nat),
    n: nat,
    m: nat,
)
    requires
        m <= n,
        plan_ok(tracker, views, bindings, offset, start, n),
    ensures
        plan_ok(tracker, views, bindings, offset, start, m),
    decreases n,
{
    if m < n {
        lemma_plan_ok_prefix(tracker, views, bindings, offset, start, (n - 1) as nat, m);
    }
}

/// What a descriptor set lookup for shader views comes to.
pub enum MemoizeStep {
    /// A set made for the same key is cached: use it.
    Hit(CachedDescriptorSet),
    /// The pipeline has no layout for the set: bind nothing.
    NoLayout,
    /// Create a set with the layout at `layout_index`, write it, and cache
    /// it under `key` (whose pool and set are filled in once created).
    Create { key: CachedDescriptorSet, layout_index: usize, writes: Vec<DescriptorWrite> },
}

/// Inputs whose lookup can be planned: all views have layouts that can be
/// looked up, and the writes of the set's layout, views in order, can be
/// planned.
pub open spec fn memoize_ok(
    tracker: Map<u64, TrackerEntry>,
    set_index: u32,
    layouts: Seq<DescriptorSetLayout>,
    srvs: Seq<ShaderViewBinding>,
    uavs: Seq<ShaderViewBinding>,
) -> bool {
    &&& forall|i: int| 0 <= i < srvs.len() ==> view_layout_ok(tracker, #[trigger] srvs[i])
    &&& forall|i: int| 0 <= i < uavs.len() ==> view_layout_ok(tracker, #[trigger] uavs[i])
    &&& set_slot(layouts_view(layouts), set_index) >= 0 ==> {
        let bindings = layouts[set_slot(layouts_view(layouts), set_index)].bindings@;
        let after_srvs = plan_state(tracker, srvs, bindings, SRV_OFFSET, (0, 0), srvs.len());
        &&& plan_ok(tracker, srvs, bindings, SRV_OFFSET, (0, 0), srvs.len())
        &&& plan_ok(tracker, uavs, bindings, UAV_OFFSET, (after_srvs.buffers, after_srvs.images), uavs.len())
    }
}

/// Look up the descriptor set for argument `set_index` of a pipeline and a
/// set of shader views: a cached set made for the same pipeline, set and
/// view layouts, else a plan for a new one against the pipeline's first
/// layout for the set, else nothing.
pub fn memoize_plan(
    tracker: &AssocList<TrackerEntry>,
    set_index: u32,
    pipeline_state: u64,
    layouts: &Vec<DescriptorSetLayout>,
    srvs: &Vec<ShaderViewBinding>,
    uavs: &Vec<ShaderViewBinding>,
    cache: &Vec<CachedDescriptorSet>,
) -> (r: MemoizeStep)
    requires
        tracker.wf(),
        memoize_ok(tracker@, set_index, layouts@, srvs@, uavs@),
    ensures
        ({
            let srv_hash = codes_digest(view_layouts(tracker@, srvs@));
            let uav_hash = codes_digest(view_layouts(tracker@, uavs@));
            let slot = set_slot(layouts_view(layouts@), set_index);
            match spec_find_cached(cache@, pipeline_state, set_index, srv_hash, uav_hash) {
                Some(e) => r == MemoizeStep::Hit(e),
                None => if slot < 0 {
                    r is NoLayout
                } else {
                    let bindings = layouts@[slot].bindings@;
                    let after_srvs = plan_state(tracker@, srvs@, bindings, SRV_OFFSET, (0, 0), srvs@.len());
                    let after_uavs = plan_state(tracker@, uavs@, bindings, UAV_OFFSET, (after_srvs.buffers, after_srvs.images), uavs@.len());
                    &&& r matches MemoizeStep::Create { key, layout_index, writes }
                    &&& key == (CachedDescriptorSet {
                        set_index,
                        srv_layout_hash: srv_hash,
                        uav_layout_hash: uav_hash,
                        pipeline_state,
                        descriptor_pool: 0,
                        descriptor_set: 0,
                    })
                    &&& layout_index == slot
                    &&& writes@ == after_srvs.writes + after_uavs.writes
                },
            }
        }),
{
    let uav_hash = layout_hash(tracker, uavs);
    let srv_hash = layout_hash(tracker, srvs);
    match find_cached_set(cache, pipeline_state, set_index, srv_hash, uav_hash) {
        Some(e) => MemoizeStep::Hit(e),
        None => match set_position(layouts, set_index) {
            None => MemoizeStep::NoLayout,
            Some(layout_index) => {
                let bindings = &layouts[layout_index].bindings;
                let mut writes: Vec<DescriptorWrite> = Vec::new();
                let mut buffers: usize = 0;
                let mut images: usize = 0;
                plan_view_writes(tracker, srvs, bindings, SRV_OFFSET, &mut writes, &mut buffers, &mut images);
                plan_view_writes(tracker, uavs, bindings, UAV_OFFSET, &mut writes, &mut buffers, &mut images);
                let key = CachedDescriptorSet {
                    set_index,
                    srv_layout_hash: srv_hash,
                    uav_layout_hash: uav_hash,
                    pipeline_state,
                    descriptor_pool: 0,
                    descriptor_set: 0,
                };
                MemoizeStep::Create { key, layout_index, writes }
            },
        },
    }
}

/// Cache a newly created set.
pub fn record_descriptor_set(cache: &mut Vec<CachedDescriptorSet>, entry: CachedDescriptorSet)
    ensures
        final(cache)@ == old(cache)@.push(entry),
{
    cache.push(entry);
}

} // verus!
