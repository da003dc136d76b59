//! The device that creates GPU objects and the queue that feeds it.
use vstd::prelude::*;
use crate::buffer::{Buffer, BufferDescriptor};
use crate::commands::CommandBuffer;
use crate::texture::{Extent3d, TextureCopyView, TextureDataLayout};

verus! {

/// Creates GPU objects on the active backend.
#[non_exhaustive]
#[derive(Debug, PartialEq, Eq, Structural)]
pub enum Device {
    Headless,
}

/// Takes uploads and command buffers to the active backend.
#[non_exhaustive]
#[derive(Debug, PartialEq, Eq, Structural)]
pub enum Queue {
    Headless,
}

impl Device {
    /// Creates a buffer of the size that `desc` gives.
    pub fn create_buffer(&self, desc: &BufferDescriptor) -> (r: Buffer)
        ensures
            r.spec_size() == desc.size,
    {
        match self {
            Device::Headless => Buffer::Headless { size: desc.size },
        }
    }
}

impl Queue {
    /// Uploads `data` into `buffer` at `offset`; the headless backend keeps
    /// no buffer contents.
    pub fn write_buffer(&self, buffer: &Buffer, offset: u64, data: &[u8]) {
        match self {
            Queue::Headless => {},
        }
    }

    /// Uploads texel `data`, laid out as `data_layout`, into the region of
    /// `size` texels at `texture`; the headless backend keeps no texels.
    pub fn write_texture(
        &self,
        texture: TextureCopyView,
        data: &[u8],
        data_layout: TextureDataLayout,
        size: Extent3d,
    ) {
        match self {
            Queue::Headless => {},
        }
    }

    /// Submits recorded command buffers for execution; the headless backend
    /// executes nothing.
    pub fn submit(&self, command_buffers: Vec<CommandBuffer>) {
        match self {
            Queue::Headless => {},
        }
    }
}

} // verus!
