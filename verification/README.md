# spinning_cube

A window that draws a rotating, coloured unit cube with wgpu.

- `src/` is the verified library (Verus):
  - `cube.rs`: the cube mesh (corners in tenths of a unit, colours, index
    buffer), its interleaved vertex data and its index-buffer bytes, with
    proofs that the mesh is the closed, outward-wound surface of the unit cube.
  - `bytes.rs`: byte layout of a slice of `u32` words (via `bytemuck`).
  - `event_loop.rs`: the decisions of the window's event loop: exit, resize,
    frame pacing, and the frame-rate report every hundred frames.
- `app/` is the program around it: window and GPU setup (winit, wgpu), the
  floating-point camera (cgmath), the egui panel, and the loop that carries
  out the library's decisions.
- `tests/` exercises the library on concrete values.
