//! File operations over the host's file system calls.

pub mod file;
