//! Advisory whole-file locking building blocks.
//!
//! The crate models operating-system-native path strings (null-terminated
//! byte buffers, owned or borrowed), an OS-status-code error type, and the
//! per-platform decision logic that maps raw locking results onto a portable
//! outcome shape. The surrounding system calls themselves live outside the
//! library; everything here is pure logic over plain values.

mod host;
pub mod unix;
pub mod windows;
