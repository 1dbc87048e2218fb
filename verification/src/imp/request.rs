//! Requests for the metadata of a file.
pub use crate::imp::sys::{StatAtFlags, StatXAttr, StatXMask, Statx};
pub use crate::request::{fstat, fstatat, lstat, stat, Request};
