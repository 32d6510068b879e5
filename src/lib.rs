//! The user side of a kernel ring pair for asynchronous I/O: request descriptors are
//! prepared in a submission ring and handed to the kernel in order, and results are
//! observed from a completion ring oldest first, each exactly once. The system calls
//! that move entries across the boundary are made by the program around this library.

pub mod buffers;
pub mod cqueue;
pub mod error;
pub mod flags;
mod slots;
pub mod squeue;
pub mod uring;

pub use error::{resultify, RingError};
pub use flags::{SetupFeatures, SetupFlags};
pub use uring::IoUring;
