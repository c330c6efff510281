# render_hal_vk

The decisions of a Vulkan rendering backend, verified with Verus: resource
state tracking and barriers, compiling command lists (as far as resource
states go), the per-frame upload allocator, descriptor set
layouts and their caching, render passes and frame bindings, swap chain
choices and presenting, shader reflection and binding moves, queue and fence
bookkeeping, and the backend's device table.

- `src/` is the verified library. Each module states what its functions
  compute in `requires`/`ensures` over spec functions; laws that span several
  functions are public proof functions next to them.
- `tests/` exercises the library on concrete values.
- `app/` performs some of the Vulkan calls (through `ash` and `vk-sync`)
  that the library's results describe: creating the instance, device,
  surface and swap chain (and resizing it), recording barriers, reflecting
  and creating shader modules (through `spirv-reflect`, which can abort on
  malformed SPIR-V and so stays outside the verified library), creating
  samplers, submitting command lists and waiting on fences. Textures,
  buffers, render passes, pipelines, frame bindings and the upload
  allocator's memory are planned by the library but not created there.
