# vulkan_renderer

A small Vulkan renderer whose decisions are verified with Verus.

- `src/` is the verified library. It decides which physical device, queue
  family, memory type and depth format to use, how the swapchain, render
  pass, framebuffers, pipeline state, descriptors, buffers and textures are
  set up, and how the renderer steps from frame to frame. Every Vulkan
  object is described there as plain values (`descs`, `vkconst`), and the
  contracts state exactly what each description holds.
- `app/` talks to the driver through `ash`, `ash-window` and `winit`: it
  queries the device, hands the answers to the library, turns the
  library's descriptions into `ash` create-infos, records the commands of a
  frame and keeps the floating-point state (matrices, viewports, clear
  values, sampler limits) that the library does not hold.
- `tests/` runs the library on concrete values, and checks the raw Vulkan
  constants against `ash`.
