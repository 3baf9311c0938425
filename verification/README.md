# illuminate (swapchain)

The swapchain part of a Vulkan renderer, as a Verus-verified library.

- `src/` is the library. Vulkan objects are raw handles (`u64`), Vulkan enums and
  flags are raw values (`i32`, `u32`); `types.rs` names the values used.
  - `support.rs`: choosing surface format, present mode and extent.
  - `create_info.rs`: image count, sharing mode and the rest of the swapchain create info.
  - `memory.rs`: memory type selection and supported-format selection.
  - `framebuffer.rs`: framebuffer descriptors and the framebuffer cache, an `fxhash`
    map reached through trusted wrappers that name what it holds.
  - `swapchain.rs`: the created swapchain, its per-image bookkeeping and the frame's commands.
  - `error.rs`: device and surface errors, and how result codes map onto them.
- `app/` performs the Vulkan calls through `ash` (surface queries, swapchain, views,
  depth texture, render pass, pipeline, framebuffers, command buffers, recording,
  acquire, present, destruction) and hands their results to the library.
- `tests/` runs the library on concrete values and checks its raw values against `ash`.
