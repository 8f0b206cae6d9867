//! Per-frame background matting: frame normalization, the downsample hint,
//! recurrent state threading, compositing over a background, and the driver
//! that sequences them once per captured frame.

pub mod capture;
pub mod composite;
pub mod downsample;
pub mod error;
pub mod model_kind;
pub mod normalize;
pub mod pipeline;
pub mod recurrent;
pub mod run;
mod text;

pub use error::{HideError, HideResult};
pub use model_kind::RvmModelKind;
