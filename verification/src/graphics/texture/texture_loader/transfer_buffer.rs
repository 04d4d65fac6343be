//! A CPU-writable staging buffer for uploading image data to device-local
//! memory, grown by doubling whenever an upload does not fit.
use crate::graphics::texture_loader::transfer_buffer::{grown_capacity, lemma_grown_capacity};
use crate::graphics::vulkan::{staging_buffer, staging_buffer_description, BufferDescription};
use vstd::prelude::*;

verus! {

/// The capacity that a new transfer buffer starts with: one mebibyte.
pub const INITIAL_CAPACITY: usize = 1048576;

/// A staging buffer and its capacity in bytes.
#[derive(Debug, Clone, Copy, PartialEq, Eq)]
pub struct TransferBuffer {
    buffer: u64,
    capacity: usize,
}

impl TransferBuffer {
    pub closed spec fn spec_capacity(&self) -> nat {
        self.capacity as nat
    }

    pub closed spec fn spec_buffer(&self) -> u64 {
        self.buffer
    }

    /// Whether `data_len` bytes can be uploaded, after growing the buffer if
    /// need be: they fit already, or doubling the capacity reaches them
    /// within `usize`.
    pub open spec fn spec_can_hold(&self, data_len: nat) -> bool {
        data_len <= self.spec_capacity() || (self.spec_capacity() > 0 && grown_capacity(
            self.spec_capacity(),
            data_len,
        ) <= usize::MAX)
    }

    /// What uploading `data_len` bytes asks for first: nothing when they
    /// fit, otherwise a staging buffer of the grown capacity.
    pub open spec fn spec_upload(&self, data_len: nat) -> Option<BufferDescription> {
        if data_len <= self.spec_capacity() {
            None
        } else {
            Some(staging_buffer(grown_capacity(self.spec_capacity(), data_len) as u64))
        }
    }

    /// The buffer to create for a new transfer buffer: [INITIAL_CAPACITY]
    /// bytes of host-visible, coherent memory that transfers read from.
    pub fn initial_buffer() -> (r: BufferDescription)
        ensures
            r == staging_buffer(INITIAL_CAPACITY as u64),
    {
        staging_buffer_description(INITIAL_CAPACITY as u64)
    }

    /// Records a transfer buffer whose buffer was created as
    /// [TransferBuffer::initial_buffer] describes.
    pub fn new(buffer: u64) -> (r: Self)
        ensures
            r.spec_capacity() == INITIAL_CAPACITY,
            r.spec_buffer() == buffer,
    {
        TransferBuffer { buffer, capacity: INITIAL_CAPACITY }
    }

    /// A non-owning copy of the Vulkan buffer handle.
    pub fn buffer(&self) -> (r: u64)
        ensures
            r == self.spec_buffer(),
    {
        self.buffer
    }

    /// The capacity in bytes.
    pub fn capacity(&self) -> (r: usize)
        ensures
            r == self.spec_capacity(),
    {
        self.capacity
    }

    /// Returns true if the internal buffer needs to be resized: the data
    /// does not fit.
    pub fn needs_realloc(&self, required_capacity: usize) -> (r: bool)
        ensures
            r == (required_capacity > self.spec_capacity()),
    {
        required_capacity > self.capacity
    }

    /// The capacity that the buffer grows to so that `required_capacity`
    /// bytes fit: the capacity doubled as often as needed.
    pub fn target_capacity(&self, required_capacity: usize) -> (r: usize)
        requires
            self.spec_capacity() > 0 || required_capacity <= self.spec_capacity(),
            grown_capacity(self.spec_capacity(), required_capacity as nat) <= usize::MAX,
        ensures
            r == grown_capacity(self.spec_capacity(), required_capacity as nat),
    {
        let mut target_capacity = self.capacity;
        while target_capacity < required_capacity
            invariant
                target_capacity > 0 || required_capacity <= target_capacity,
                grown_capacity(target_capacity as nat, required_capacity as nat) == grown_capacity(
                    self.spec_capacity(),
                    required_capacity as nat,
                ),
                grown_capacity(self.spec_capacity(), required_capacity as nat) <= usize::MAX,
            decreases if required_capacity > target_capacity {
                required_capacity - target_capacity
            } else {
                0
            },
        {
            proof {
                lemma_grown_capacity((target_capacity * 2) as nat, required_capacity as nat);
            }
            target_capacity = target_capacity * 2;
        }
        target_capacity
    }

    /// Whether `data_len` bytes can be uploaded, growing the buffer first if
    /// need be, without its capacity passing `usize::MAX`.
    pub fn can_hold(&self, data_len: usize) -> (r: bool)
        ensures
            r == self.spec_can_hold(data_len as nat),
    {
        if data_len <= self.capacity {
            return true;
        }
        if self.capacity == 0 {
            return false;
        }
        let mut target_capacity = self.capacity;
        while target_capacity < data_len
            invariant
                target_capacity > 0,
                self.spec_capacity() > 0,
                grown_capacity(target_capacity as nat, data_len as nat) == grown_capacity(
                    self.spec_capacity(),
                    data_len as nat,
                ),
            decreases if data_len > target_capacity {
                data_len - target_capacity
            } else {
                0
            },
        {
            if target_capacity > usize::MAX / 2 {
                proof {
                    lemma_grown_capacity((target_capacity * 2) as nat, data_len as nat);
                }
                return false;
            }
            target_capacity = target_capacity * 2;
        }
        true
    }

    /// Resizes for `required_capacity` bytes: when they do not fit, records
    /// the buffer created for the grown capacity, which replaces the old
    /// one; when they fit, nothing changes. The old buffer is released by its
    /// owner.
    pub fn realloc(&mut self, required_capacity: usize, buffer: u64)
        requires
            old(self).spec_can_hold(required_capacity as nat),
        ensures
            required_capacity <= old(self).spec_capacity() ==> *final(self) == *old(self),
            required_capacity > old(self).spec_capacity() ==> {
                &&& final(self).spec_capacity() == grown_capacity(
                    old(self).spec_capacity(),
                    required_capacity as nat,
                )
                &&& final(self).spec_buffer() == buffer
            },
    {
        if required_capacity <= self.capacity {
            return;
        }
        let target_capacity = self.target_capacity(required_capacity);
        self.buffer = buffer;
        self.capacity = target_capacity;
    }

    /// Decides whether `data_len` bytes can be uploaded as things are: `None`
    /// when they fit, or the buffer to create and grow into first.
    pub fn upload_bytes(&self, data_len: usize) -> (r: Option<BufferDescription>)
        requires
            self.spec_can_hold(data_len as nat),
        ensures
            r == self.spec_upload(data_len as nat),
    {
        if self.needs_realloc(data_len) {
            let target = self.target_capacity(data_len);
            Some(staging_buffer_description(target as u64))
        } else {
            None
        }
    }
}

/// A transfer buffer's capacity is a `usize`.
pub proof fn lemma_capacity_bound(transfer_buffer: TransferBuffer)
    ensures
        transfer_buffer.spec_capacity() <= usize::MAX,
{
}

/// An upload followed by the resize that it asks for leaves room for the
/// data: `after` is what [TransferBuffer::realloc] for `data_len` bytes
/// makes of `before`; its capacity then holds the data, and equals the size
/// of the buffer that [TransferBuffer::upload_bytes] asked for, or nothing
/// changed because nothing was asked for.
pub proof fn lemma_upload_then_realloc(before: TransferBuffer, after: TransferBuffer, data_len: nat)
    requires
        before.spec_can_hold(data_len),
        data_len <= before.spec_capacity() ==> after == before,
        data_len > before.spec_capacity() ==> after.spec_capacity() == grown_capacity(
            before.spec_capacity(),
            data_len,
        ),
    ensures
        after.spec_capacity() >= data_len,
        before.spec_upload(data_len) matches Some(d) ==> d.size == after.spec_capacity(),
        before.spec_upload(data_len) is None ==> after == before,
{
    if data_len > before.spec_capacity() {
        lemma_grown_capacity(before.spec_capacity(), data_len);
    }
}

} // verus!
