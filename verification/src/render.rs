//! What the renderer decides without touching the graphics device: the
//! numbers that name its objects to OpenGL, the settings of the window, and
//! the reading of shader sources.

pub mod gl;
pub mod shader;
pub mod window;
