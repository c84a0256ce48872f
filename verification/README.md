# ash_triangle

A Vulkan program that draws an indexed, colored rectangle, split in two:

- `src/` is a library verified with Verus. It holds the renderer's
  decisions as functions on plain values: choosing the physical device, its
  queue families and sample count (`vk_init_core`); choosing the swapchain's
  format, extent, present mode and image count, keeping the renderer's
  swapchain state, and planning the swapchain, render targets, pipeline and
  command pool (`vk_init_rndr`); planning
  images, buffers and layout transitions (`vk_utils`); decoding SPIR-V
  (`spirv`); the frame loop as a state machine and its synchronization
  objects (`rndr`); and the window's
  size and resize flag (`app_window`). Raw Vulkan values live in `vk_flags`.
- `app/` is the program: it reads what the driver reports, hands it to the
  library, and performs the Vulkan, windowing and logging calls that the
  library plans. It expects the compiled shader at `shaders/shader.spv`.
