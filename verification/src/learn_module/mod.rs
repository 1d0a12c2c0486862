//! The lessons: a first vertex/fragment pipeline, a coloured triangle read
//! from a vertex buffer, and an exercise that draws a triangle without one.

pub mod _2_buffer_vertex;
pub mod _3_buffer_vertex_exam;
pub mod first_vertex_fragment;
