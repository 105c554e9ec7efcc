//! Container formats: seeking requests and in-memory output.
pub mod demuxer;
pub mod io;
