//! Verified planning core of a minimal OpenGL triangle renderer.
//!
//! The library decides *what* has to be sent to the graphics API and *when*
//! the program has to stop; it never talks to the GPU or the window system
//! itself. A caller obtains handles, reports and events from the outside
//! world, hands them in as plain values, and carries out the [`GlCall`]s it
//! gets back.

pub mod failure;
pub mod frame;
pub mod gl_call;
pub mod render;
pub mod shader;
pub mod vertex;

pub use failure::{FailureKind, SetupFailure};
pub use frame::{FrameLoop, InputEvent, Key};
pub use gl_call::{GlCall, Matrix};
pub use render::{frame_calls, next_turn, Turn, UniformLocations, WindowSize};
pub use shader::{Shader, ShaderBuild, Stage};
pub use vertex::Vertex;
