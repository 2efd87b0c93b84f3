//! Fixed-capacity buffers for consuming a stream in chunks while keeping the
//! unconsumed tail of each chunk contiguous with the next one.

pub mod rotate;
pub mod overflow;
pub mod rotating;
pub mod stream;

pub use overflow::OverflowBuffer;
pub use rotating::RotatingBuffer;
pub use stream::StreamBuffer;
