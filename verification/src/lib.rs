//! Verified core of a Vulkan rendering backend: capability bookkeeping,
//! error classification, format and state tables, descriptor layout
//! merging, queue epoch tracking and the linear upload allocator.

pub mod vulkan;
pub mod capability;
pub mod command;
pub mod errors;
pub mod format;
pub mod image;
pub mod states;
pub mod sampler;
pub mod types;
pub mod descriptors;
pub mod queue;
pub mod allocator;
pub mod assoc;
pub mod compile;
pub mod hashing;
pub mod pipeline;
pub mod render_pass;
pub mod swap_chain;
pub mod device;
pub mod resources;
pub mod shader;
pub mod descriptor_cache;
pub mod command_buffer;
pub mod command_list;
pub mod fence;
pub mod instance;
pub mod backend;
pub mod surface;
pub mod reflect;
pub mod commands;
pub mod frames;
