//! Git operations; the commands run in the program around the library.

pub mod ops;
