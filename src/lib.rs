//! Resource bookkeeping for a small OpenGL renderer.
//!
//! The library never talks to the driver itself. Each operation decides what
//! has to happen and returns it as a list of [`driver::GlCommand`] values;
//! the program around the library performs them and reports back what the
//! driver answered.

pub mod buffers;
pub mod driver;
pub mod shaders;
pub mod gl_helper_functions;
pub mod debug_output;
pub mod input;
