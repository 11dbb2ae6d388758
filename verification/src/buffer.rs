//! The buffer manager's rules: every device buffer has a fixed byte size, a
//! usage role and a memory location, and the manager's two data paths are
//! guarded exactly — host writes demand a mappable allocation that the data
//! fits, and staged device copies demand equal sizes. The shell performs the
//! actual allocation, mapping and copy against these verified decisions.

use vstd::prelude::*;

verus! {

/// What a buffer is for.
#[derive(Clone, Copy, Debug, PartialEq, Eq, Structural)]
pub enum BufferUsage {
    TransferSrc,
    Vertex,
    Index,
    Uniform,
}

/// Where a buffer's memory lives: visible to the host for mapping, or on
/// the device only, reachable by a staged transfer.
#[derive(Clone, Copy, Debug, PartialEq, Eq, Structural)]
pub enum MemoryHome {
    HostVisible,
    DeviceOnly,
}

/// The host-side model of one device buffer.
pub struct BufferModel {
    size: u64,
    usage: BufferUsage,
    home: MemoryHome,
    filled: u64,
}

impl BufferModel {
    pub closed spec fn size_spec(&self) -> u64 {
        self.size
    }

    pub closed spec fn usage_spec(&self) -> BufferUsage {
        self.usage
    }

    pub closed spec fn home_spec(&self) -> MemoryHome {
        self.home
    }

    /// How many bytes of the buffer have been filled with data.
    pub closed spec fn filled_spec(&self) -> u64 {
        self.filled
    }

    /// A fresh buffer of the given size, role and memory home, not yet
    /// filled. An allocation the device cannot satisfy is fatal in the
    /// shell before this model is ever built.
    pub fn new(size: u64, usage: BufferUsage, home: MemoryHome) -> (r: BufferModel)
        ensures
            r.size_spec() == size,
            r.usage_spec() == usage,
            r.home_spec() == home,
            r.filled_spec() == 0,
    {
        BufferModel { size, usage, home, filled: 0 }
    }

    /// Whether a host write of `bytes` bytes is legal: only host-visible
    /// memory can be mapped, and the data must fit the allocation.
    pub fn can_set_data(&self, bytes: u64) -> (r: bool)
        ensures
            r == (self.home_spec() == MemoryHome::HostVisible && bytes <= self.size_spec()),
    {
        match self.home {
            MemoryHome::HostVisible => bytes <= self.size,
            MemoryHome::DeviceOnly => false,
        }
    }

    /// Records a host write of `bytes` bytes into the mapped allocation.
    /// Writing to memory the host cannot map, or past the allocation, is a
    /// programmer error: the shell tests `can_set_data` and aborts as the
    /// original does rather than reach this call.
    pub fn set_data(&mut self, bytes: u64)
        requires
            old(self).home_spec() == MemoryHome::HostVisible,
            bytes <= old(self).size_spec(),
        ensures
            final(self).size_spec() == old(self).size_spec(),
            final(self).usage_spec() == old(self).usage_spec(),
            final(self).home_spec() == old(self).home_spec(),
            final(self).filled_spec() == bytes,
    {
        self.filled = bytes;
    }

    /// Records a staged transfer of the source's full byte range into this
    /// buffer: the copy covers this buffer's whole size, so the source must
    /// hold at least that much.
    pub fn transform_from(&mut self, src: &BufferModel)
        requires
            old(self).size_spec() <= src.size_spec(),
            old(self).size_spec() <= src.filled_spec(),
        ensures
            final(self).size_spec() == old(self).size_spec(),
            final(self).usage_spec() == old(self).usage_spec(),
            final(self).home_spec() == old(self).home_spec(),
            final(self).filled_spec() == old(self).size_spec(),
    {
        self.filled = self.size;
    }

    /// The buffer's byte size.
    pub fn buffer_size(&self) -> (r: u64)
        ensures
            r == self.size_spec(),
    {
        self.size
    }

    /// How many bytes have been filled.
    pub fn filled_bytes(&self) -> (r: u64)
        ensures
            r == self.filled_spec(),
    {
        self.filled
    }
}

/// The byte size of a buffer holding `count` elements of `elem_size` bytes,
/// or nothing when that exceeds the addressable range.
pub fn buffer_size_for(count: u64, elem_size: u64) -> (r: Option<u64>)
    ensures
        r == if count * elem_size <= u64::MAX {
            Some((count * elem_size) as u64)
        } else {
            None::<u64>
        },
{
    count.checked_mul(elem_size)
}

} // verus!
