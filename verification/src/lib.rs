//! LZ4 frame compression and decompression on top of liblz4, with the
//! buffer management, state machines and size arithmetic verified.

mod common;
pub mod lz4f;

pub use common::{ErrorKind, Report, DEFAULT_BUF_SIZE};
