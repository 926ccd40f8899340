//! The error vocabulary of the rendering layer and the shared handle type for
//! compiled shader programs.

pub mod error;
pub mod shader;
pub mod text;

pub use error::{ErrorSource, Result, TetraError};
pub use shader::{Context, GLProgram, GraphicsDevice, Shader, ShaderLoad};
