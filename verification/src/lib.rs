//! The verified core of an FFmpeg binding: time base aware timestamps and
//! their rescaling, packet and frame metadata, codec flags and errors, the
//! configuration checks of encoders, resamplers, filters, scalers and
//! transcoders, the meaning of the native layer's status codes, and how the
//! FFmpeg installation is located. The native calls themselves are made by
//! the code around this library.
pub mod rescale;
pub mod time;
pub mod time_order;
pub mod math;
pub mod error;
pub mod codec;
pub mod packet;
pub mod format;
pub mod video;
pub mod locate;
pub mod stream;
pub mod decimal;

pub use error::Error;
