//! Recursively divisible byte buffers.
//!
//! A [`DivBufShared`] owns a byte buffer.  From it come read-only windows
//! ([`DivBuf`]) and writable windows ([`DivBufMut`]) onto parts of the buffer,
//! which can be split, sliced and joined again without copying.  An access
//! word shared by all windows of one buffer keeps readers and writers apart:
//! any number of read views, or write views over disjoint windows, never both.
pub mod access;
pub mod divbuf;
pub mod window;

pub use crate::divbuf::{
    Chunks, ChunksMut, DivBuf, DivBufInaccessible, DivBufMut, DivBufShared, Error, ErrorKind,
    Storage,
};
pub use crate::window::Window;
