//! A minimal container launcher: image references, registry answers, the
//! layer pipeline and the confinement stages, with the I/O left to the caller.
pub mod image;
pub mod json;
pub mod launch;
pub mod laws;
pub mod layer;
pub mod registry;
pub mod rootfs;
