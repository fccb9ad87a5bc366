//! Repackaging of baked light-probe caches as GPU texture containers.
//!
//! A scene stores its baked global illumination as a light cache: a cube
//! texture with a mip chain and a flat grid texture, each a run of raw
//! bytes with a declared size and sample layout. This library decides, for
//! such a cache, which texture containers have to be produced, what shape
//! and pixel format each one has, and how the cached payloads are laid out
//! in a container's buffer. Reading scenes and writing container files is
//! left to the caller.

pub mod cache;
pub mod error;
pub mod format;
pub mod layout;
pub mod payload;
pub mod probe;

