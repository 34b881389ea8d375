//! Workspace file access with path checks; the same checks as the file tools.

pub use crate::tools::file_io::FileIo;
