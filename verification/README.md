# vkrender

A small Vulkan renderer (ash + SDL2) that draws a spinning mesh.

- `src/` is the verified library (Verus). It holds the renderer's decisions
  over plain values: identifier allocation (`id`), memory type selection
  (`devicememory`), queue family and GPU selection (`renderingcontext`),
  surface configuration (`surface`), present mode choice (`swapchain`), buffer
  sizing (`stagingbuffer`, `vertexbuffer`), SPIR-V decoding of shader files
  (`shader`) and the frame pacing and event handling of the
  render loop (`lowlevelrenderer`).
- `app/` is the program: it talks to the Vulkan driver and to SDL2, hands the
  library what those calls return, and carries out what the library decides.
  Matrices and mesh positions are floating point and stay there.
- `tests/` exercises the library on concrete values.
