# bubble_world

The client-side model of a multiplayer "bubble sanctuary" game, verified
with Verus.

- `src/shared.rs`: the data types shared by client and server. Every `f32`
  of the game is held by its bit pattern (`F32Bits`); arithmetic on floats
  is left to the application.
- `src/graph.rs`: the bubble graph, its id counter, and node/edge insertion.
- `src/world.rs`: the client's copy of the world, keyed by entity id.
- `src/render/`: extraction of render data from the world, the CPU-side
  packing of bubbles into texture buffers, texture growth, and the byte
  layout of half-float uploads.
- `app/`: the macroquad program around the library: window, shaders, GPU
  textures, float geometry and colour conversion, serde copies of the types.
