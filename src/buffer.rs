//! GPU buffers of the rendering backend.
use vstd::prelude::*;

verus! {

/// Whether a mapped buffer is read or written by the host.
#[derive(Clone, Copy, Debug, PartialEq, Eq, Structural)]
pub enum MapMode {
    Read,
    Write,
}

/// A buffer could not be mapped.
#[derive(Clone, Copy, Debug, PartialEq, Eq, Structural)]
pub struct BufferMappingError;

/// The highest bit pattern that a set of buffer usages can have.
pub const BUFFER_USAGE_ALL: u32 = 511;

/// A set of buffer usages, one bit each.
#[derive(Clone, Copy, Debug, PartialEq, Eq, Structural)]
pub struct BufferUsage {
    bits: u32,
}

impl View for BufferUsage {
    type V = u32;

    closed spec fn view(&self) -> u32 {
        self.bits
    }
}

impl BufferUsage {
    pub const MAP_READ: u32 = 1;
    pub const MAP_WRITE: u32 = 2;
    pub const COPY_SRC: u32 = 4;
    pub const COPY_DST: u32 = 8;
    pub const INDEX: u32 = 16;
    pub const VERTEX: u32 = 32;
    pub const UNIFORM: u32 = 64;
    pub const STORAGE: u32 = 128;
    pub const INDIRECT: u32 = 256;

    /// The set whose bits are `bits`, or `None` when a bit names no usage.
    pub fn from_bits(bits: u32) -> (r: Option<BufferUsage>)
        ensures
            r is Some <==> bits <= BUFFER_USAGE_ALL,
            r matches Some(u) ==> u@ == bits,
    {
        if bits <= BUFFER_USAGE_ALL {
            Some(BufferUsage { bits })
        } else {
            None
        }
    }

    /// The bits of the set.
    pub fn bits(&self) -> (r: u32)
        ensures
            r == self@,
    {
        self.bits
    }
}

/// How to create a buffer.
pub struct BufferDescriptor<'a> {
    pub label: Option<&'a str>,
    pub size: u64,
    pub usage: BufferUsage,
    pub mapped_at_creation: bool,
}

/// A region of a buffer that holds texel data.
pub struct BufferCopyView<'a> {
    pub buffer: &'a Buffer,
    /// Offset into the buffer of the first texel.
    pub offset: u64,
    /// Bytes per row of texels.
    pub bytes_per_row: u32,
    /// Rows that make up one layer of a 3D image.
    pub rows_per_image: u32,
}

/// A buffer of the active backend.
#[non_exhaustive]
pub enum Buffer {
    /// A buffer of the headless backend, which keeps no contents.
    Headless { size: u64 },
}

impl Buffer {
    /// The size in bytes the buffer was created with.
    pub open spec fn spec_size(&self) -> u64 {
        match self {
            Buffer::Headless { size } => *size,
        }
    }

    /// The size in bytes the buffer was created with.
    pub fn size(&self) -> (r: u64)
        ensures
            r == self.spec_size(),
    {
        match self {
            Buffer::Headless { size } => *size,
        }
    }

    /// Ends a mapping of the buffer; the headless backend has nothing to
    /// release.
    pub fn unmap(&self) {
        match self {
            Buffer::Headless { .. } => {},
        }
    }
}

} // verus!
