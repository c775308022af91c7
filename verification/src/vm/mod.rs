//! Block devices for a microVM's root filesystem.

pub mod block_image;
pub mod lifecycle;
pub mod loop_device;
pub mod permissions;
pub mod populate;

pub use crate::vm::block_image::{
    BlockImage, BlockImageBuilder, DEFAULT_BLOCK_IMAGE_SIZE_GIB, DEFAULT_FILESYSTEM_TYPE,
};
pub use crate::vm::loop_device::LoopDevice;
