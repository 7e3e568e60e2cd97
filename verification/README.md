# rust_gfx

A window with six triangles, drawn by Vulkan: three that stand still, one that changes
its colour, one that moves and one that grows.

- `src/` is the library: the decisions of the program and the settings that it hands to the
  device, verified with Verus. The graphics device, the window system and the shader compiler
  are not part of it. Their work is asked for by actions, and the outcomes come back as
  replies, so what the program does is a function of its state and of what it is told.
- `app/` is the program: it opens the window, carries out the actions and hands back the
  replies. It reads the sources of the two shaders at startup, from
  `shaders/triangle.vert` and `shaders/triangle.frag` in the working directory.
- `tests/` runs the library on concrete values.

Floating-point values are computed in `app/` and cross the library as the bits of their
encoding.
