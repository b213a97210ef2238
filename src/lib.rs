//! Writing typed values into byte buffers at an offset, under a serialization context.
pub mod ctx;
pub mod error;
pub mod laws;
pub mod primitive;
pub mod pwrite;
