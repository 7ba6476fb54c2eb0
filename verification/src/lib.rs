//! File status for a kernel's virtual file system: the `KStat` record that
//! `stat`, `fstatat` and `statx` fill from an inode's metadata, the flag sets
//! that steer them, and the conversions to the structures handed to user space.

pub mod error;
pub mod flags;

pub use error::SystemError;
pub mod device;
pub mod time;
pub mod inode;
pub mod stat;
pub mod posix;
