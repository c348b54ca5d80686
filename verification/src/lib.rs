//! Safe-side logic of an adapter around a native audio rendering engine.
//!
//! The engine itself is reached through a C ABI by the code that embeds this
//! library. Everything that can be decided without touching the engine lives
//! here: the meaning of result codes, the reading of the info buffer, the
//! description of a render request, the view onto a render result, and the
//! layout of the float WAV container.

pub mod error;
pub mod info;
pub mod output;
pub mod request;
pub mod wav;

pub use error::{check, Error};
pub use info::{info_buffer, info_from_reply, info_text, nul_position, INFO_CAPACITY};
pub use output::{sample_count, RenderResult};
pub use request::{EnvCurve, F0Curve, NoteSegment, RenderConfig};
