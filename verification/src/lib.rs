//! Block storage for microVM root filesystems.
//!
//! - [`vm`] makes block images (sparse files with a filesystem on a loop device), fills them from
//!   image layers and removes them.
//! - [`oci`] recognises OverlayBD and TurboOCI images and makes the configuration from which the
//!   overlaybd-tcmu service serves them as block devices.
//!
//! The crate decides and leaves the doing to its caller. An operation that needs the host gives an
//! action; the caller carries it out and hands the answer back.

pub mod error;
pub mod host;
pub mod oci;
pub mod path;
pub mod text;
pub mod vm;
