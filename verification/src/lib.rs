//! MD5 digests of file contents, rendered as lowercase hexadecimal.
//!
//! The library holds everything about a hash request that can be decided
//! from plain values: the digest of a byte buffer, its hexadecimal form, the
//! comparison of what was read against the length the file system declared,
//! the error taxonomy, and the state of the window that shows the result.
//! Opening and reading files, the clipboard and the window itself belong to
//! the program around it.

pub mod digest;
pub mod error;
pub mod hex;
pub mod service;
pub mod ui;
