//! Recording of GPU commands.
use vstd::prelude::*;
use crate::buffer::Buffer;

verus! {

/// Recorded commands, ready to be submitted to a queue.
#[non_exhaustive]
#[derive(Debug, PartialEq, Eq, Structural)]
pub enum CommandBuffer {
    Headless,
}

/// Records commands for one command buffer.
#[non_exhaustive]
#[derive(Debug, PartialEq, Eq, Structural)]
pub enum CommandEncoder {
    Headless,
}

impl CommandEncoder {
    /// Ends recording.
    pub fn finish(self) -> (r: CommandBuffer)
        ensures
            self == CommandEncoder::Headless ==> r == CommandBuffer::Headless,
    {
        match self {
            CommandEncoder::Headless => CommandBuffer::Headless,
        }
    }

    /// Records a copy of `copy_size` bytes from `src` at `src_offset` to
    /// `dest` at `dest_offset`; the headless backend records nothing.
    pub fn copy_buffer_to_buffer(
        &mut self,
        src: &Buffer,
        src_offset: u64,
        dest: &Buffer,
        dest_offset: u64,
        copy_size: u64,
    )
        ensures
            *final(self) == *old(self),
    {
        match self {
            CommandEncoder::Headless => {},
        }
    }
}

} // verus!
