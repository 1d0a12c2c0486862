# wgpu_lessons

A series of small wgpu/winit lessons: a window whose surface is cleared,
a first vertex/fragment pipeline, a coloured triangle read from a vertex
buffer, and an exercise that draws a triangle without one.

- `src/` is the verified library (Verus). It holds every decision the
  lessons take: the window-and-surface state machine of each lesson
  (resizing, redrawing, recovering from a lost surface, setting up once),
  the surface configuration chosen from an adapter's capabilities, and the
  triangle's vertex data and vertex-buffer layout. Floats are held as their
  bit patterns.
- `app/` is the program around it: it opens the windows, talks to the GPU,
  runs the event loops and performs the commands the library returns. The
  WGSL shaders of the lessons are written inline there.
- `tests/` runs the library on concrete values.

Run a lesson with `app clear`, `app first`, `app exam`, or without an
argument for the vertex-buffer lesson.
