//! Safe, verified core of a binding to a vector-graphics GPU engine: status
//! classification, the path command-stream encoder, pixel-surface geometry
//! and the lifecycle rules for buffers and the engine context.
pub mod buffer;
pub mod context;
pub mod error;
pub mod path;
pub mod stream;
pub mod surface;

pub use buffer::{Buffer, Provenance, Release};
pub use context::{Context, Engine, EngineState};
pub use error::{wrap_result, Error};
pub use path::{DataFormat, Fill, OpCodeFormat, Opcode, Path, PathData, Quality};
pub use stream::decode_commands;
pub use surface::{Color, Format, Rectangle, Surface};
