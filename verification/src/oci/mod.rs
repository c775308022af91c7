//! OverlayBD images: what their manifests say and the configuration that serves them.

pub mod config;
pub mod image;
pub mod layout;
pub mod turbo;
pub mod write;
