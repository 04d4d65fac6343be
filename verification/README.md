# shader_toy_slang

A playground for live-reloaded shader-slang shaders drawn with Vulkan: a
fullscreen effect, fullscreen quads with static textures, a bindless texture
atlas, sprite layers and a compute-driven particle system.

## Layout

- `src/` is the verified library. It plans the graphics work as plain values:
  descriptor set layouts, pools and writes, render pass descriptions, and the
  command sequences that each component records per frame, over Vulkan
  handles held as `u64`. It also holds the bookkeeping that decides what to
  do: the images, views and buffers to create, decoding image files into
  texels, reading SPIR-V words, per-frame uniform buffer slots, the staging
  buffer's growth, the
  ping-pong frames of the particle kernels, the sprite batch descriptor cache,
  the fullscreen toggle, shader reload updates, and the log record format.
  Every function carries a contract, and the laws that tie functions together
  are stated as proof functions next to them.
- `app/` is ordinary Rust around the library: it creates the Vulkan objects
  the library describes, records its command sequences, reads files,
  runs `slangc` and the file watcher, sets up logging, and drives the GLFW
  window. Floating-point data (sprites, projections, samplers, viewports)
  lives there too.
- `tests/` exercises the library on concrete values.
