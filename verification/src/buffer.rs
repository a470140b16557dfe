//! Buffers that grow.
use crate::resource::{BufferDescriptor, BufferUsages};
use vstd::prelude::*;

verus! {

/// A buffer of elements of one size, and where in it the data of this frame starts.
#[derive(Debug, PartialEq, Eq)]
pub struct Buffer {
    /// The buffer on the device.
    pub raw: BufferDescriptor,
    /// The number of bytes of an element.
    pub stride: usize,
    /// Where each write since the last `clear` started, in bytes.
    pub offsets: Vec<u64>,
}

/// The contents of a [`Buffer`].
#[verifier::ext_equal]
pub struct BufferModel {
    /// The buffer on the device.
    pub raw: BufferDescriptor,
    /// The number of bytes of an element.
    pub stride: nat,
    /// Where each write started.
    pub offsets: Seq<u64>,
}

impl BufferModel {
    /// The buffer has room for this many elements.
    pub open spec fn holds(self, count: nat) -> bool {
        self.stride * count <= self.raw.size
    }

    /// The buffer on the device once there is room for this many elements: the same
    /// one if it has the room, and otherwise one of just that size.
    pub open spec fn grown(self, count: nat) -> BufferDescriptor {
        if self.holds(count) {
            self.raw
        } else {
            BufferDescriptor { size: (self.stride * count) as u64, ..self.raw }
        }
    }
}

impl View for Buffer {
    type V = BufferModel;

    open spec fn view(&self) -> BufferModel {
        BufferModel { raw: self.raw, stride: self.stride as nat, offsets: self.offsets@ }
    }
}

impl Buffer {
    /// Describes a buffer with room for `amount` elements of `stride` bytes.
    pub fn new(label: &'static str, stride: usize, amount: usize, usage: BufferUsages) -> (buffer:
        Self)
        requires
            stride * amount <= u64::MAX,
        ensures
            buffer@ == (BufferModel {
                raw: BufferDescriptor { label, size: (stride * amount) as u64, usage },
                stride: stride as nat,
                offsets: Seq::empty(),
            }),
    {
        let size: u64 = stride as u64 * amount as u64;
        Buffer { raw: BufferDescriptor { label, size, usage }, stride, offsets: Vec::new() }
    }

    /// Makes room for `new_count` elements. Tells whether that took a new buffer on
    /// the device.
    pub fn resize(&mut self, new_count: usize) -> (resized: bool)
        requires
            old(self).stride * new_count <= u64::MAX,
        ensures
            resized == !old(self)@.holds(new_count as nat),
            final(self)@ == (BufferModel {
                raw: old(self)@.grown(new_count as nat),
                ..old(self)@
            }),
    {
        let new_size: u64 = self.stride as u64 * new_count as u64;

        if self.raw.size < new_size {
            self.raw = BufferDescriptor {
                label: self.raw.label,
                size: new_size,
                usage: self.raw.usage,
            };
            true
        } else {
            false
        }
    }

    /// Notes that `len` elements go to the given offset. Returns their number of
    /// bytes.
    pub fn write(&mut self, offset: usize, len: usize) -> (written: usize)
        requires
            offset + old(self).stride * len <= old(self).raw.size,
            old(self).stride * len <= usize::MAX,
        ensures
            written == old(self).stride * len,
            final(self)@ == (BufferModel {
                offsets: old(self)@.offsets.push(offset as u64),
                ..old(self)@
            }),
    {
        self.offsets.push(offset as u64);
        self.stride * len
    }

    /// Returns where the data of the write with the given number starts.
    pub fn slice_from_index(&self, index: usize) -> (offset: u64)
        requires
            index < self@.offsets.len(),
        ensures
            offset == self@.offsets[index as int],
    {
        self.offsets[index]
    }

    /// Forgets where the data starts. The buffer on the device stays.
    pub fn clear(&mut self)
        ensures
            final(self)@ == (BufferModel { offsets: Seq::empty(), ..old(self)@ }),
    {
        self.offsets.clear();
    }
}

} // verus!
