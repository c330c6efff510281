//! Backend-side records of pipeline layouts and shaders.

use vstd::prelude::*;

verus! {

/// One binding of a descriptor set layout (`VkDescriptorSetLayoutBinding`).
/// A sampler baked into the layout is kept by its raw handle.
#[derive(Clone, Copy, Debug, PartialEq, Eq, Structural)]
pub struct DescriptorSetLayoutBinding {
    pub binding: u32,
    pub descriptor_type: i32,
    pub descriptor_count: u32,
    pub stage_flags: u32,
    pub immutable_sampler: Option<u64>,
}

/// Number of descriptors of one type that a pool provides (`VkDescriptorPoolSize`).
#[derive(Clone, Copy, Debug, PartialEq, Eq, Structural)]
pub struct DescriptorPoolSize {
    pub ty: i32,
    pub descriptor_count: u32,
}

/// A descriptor set: its index, its bindings and the raw handle of the
/// layout object once created (0 before).
#[derive(Clone, Debug)]
pub struct DescriptorSetLayout {
    pub set_index: u32,
    pub bindings: Vec<DescriptorSetLayoutBinding>,
    pub layout: u64,
}

/// Mathematical view of a descriptor set layout.
pub struct LayoutView {
    pub set_index: u32,
    pub bindings: Seq<DescriptorSetLayoutBinding>,
    pub layout: u64,
}

impl DescriptorSetLayout {
    pub open spec fn view(&self) -> LayoutView {
        LayoutView { set_index: self.set_index, bindings: self.bindings@, layout: self.layout }
    }
}

/// Views of a sequence of layouts.
pub open spec fn layouts_view(layouts: Seq<DescriptorSetLayout>) -> Seq<LayoutView> {
    layouts.map_values(|l: DescriptorSetLayout| l.view())
}

/// A compiled shader: its module handle, the descriptor bindings it uses
/// per set, and its entry point.
#[derive(Clone, Debug)]
pub struct RenderShaderVk {
    pub name: String,
    pub module: u64,
    pub set_layouts: Vec<(u32, Vec<DescriptorSetLayoutBinding>)>,
    pub entry_point: String,
}

/// Views of a shader's per-set bindings.
pub open spec fn shader_layouts_view(layouts: Seq<(u32, Vec<DescriptorSetLayoutBinding>)>) -> Seq<(u32, Seq<DescriptorSetLayoutBinding>)> {
    layouts.map_values(|p: (u32, Vec<DescriptorSetLayoutBinding>)| (p.0, p.1@))
}

} // verus!
