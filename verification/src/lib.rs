//! Control core of a small OpenGL renderer.
//!
//! The renderer draws one hardcoded mesh with one shader program and spins
//! it with two rotation matrices.  Everything that decides something lives
//! here and is verified: which graphics commands are given, in which order,
//! with which arguments, and what happens when the graphics context reports
//! an error.  The commands themselves are performed by a driver outside
//! this crate, one at a time; it hands each outcome back and is told how to
//! go on.
//!
//! Setting up goes through [`Setup`]: the driver performs
//! [`Setup::command`] and passes the outcome to [`Renderer::new`], until
//! that gives the renderer.  A frame goes through the phases from
//! [`FramePhase::first`]: the driver performs [`Renderer::command`], reads
//! the error flag and passes the code to [`Renderer::draw`], until that
//! says the frame is drawn.

pub mod constants;
pub mod error;
pub mod frame;
pub mod mesh;
pub mod renderer;
pub mod setup;
pub mod shader;
pub mod status;
pub mod text;
pub mod uniform;

pub use crate::error::RendererInitError;
pub use crate::frame::{DrawCommand, FrameNext, FramePhase, FrameStep};
pub use crate::renderer::Renderer;
pub use crate::setup::{Progress, Setup, SetupCommand, SetupStage};
pub use crate::shader::{ShaderError, ShaderStage};
pub use crate::status::{get_error, ErrorReport};
pub use crate::text::null_str;
