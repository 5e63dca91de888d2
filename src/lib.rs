//! A proxy for a version-control executable that rewrites drive-letter paths
//! among its arguments to POSIX form, and rewrites the top-level directory it
//! reports back to drive-letter form.
pub mod text;
pub mod invoker;
pub mod journal;
pub mod laws;
