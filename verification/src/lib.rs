//! Buffered byte-at-a-time iteration over an arbitrary readable byte source.
//!
//! [`BufBytes`](buffered::BufBytes) owns a [`ByteSource`](source::ByteSource)
//! and an internal fixed-capacity buffer.  It pulls chunks from the source on
//! demand and yields one byte per call, so that a consumer never issues one
//! fill per byte.  A read failure during iteration is recorded in a sticky
//! field rather than interrupting the per-byte contract; callers inspect it
//! through `get_err` or run a whole pass through `try_block`.

pub mod buffered;
pub mod source;

pub use buffered::BufBytes;
pub use buffered::replay;
pub use source::ByteSource;
pub use source::IoError;
pub use source::MemSource;
