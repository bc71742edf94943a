//! Integer core of a real-time recursive ray tracer: packed colors, the
//! frame canvas and its row bands, the frame configuration and render-loop
//! phases, the camera's heading, the nearest-hit selection used by the
//! intersection queries, the reflection depth, and the triangulation of a
//! box into twelve triangles.

pub mod color;
pub mod canvas;
pub mod frame;
pub mod camera;
pub mod trace;
pub mod prism;
