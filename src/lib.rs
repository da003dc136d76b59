//! Uniform-block (std140) layout computation, byte packing and shader
//! resource binding validation, with a headless rendering backend.
pub mod types;
pub mod layout;
pub mod pack;
pub mod resources;
pub mod texture;
pub mod buffer;
pub mod commands;
pub mod device_queue;
pub mod config;
