//! A model of a device-resident buffer: a fixed-size byte region with a set
//! of allowed usages and a mapping state machine. Host code may only read or
//! write the bytes while the buffer is mapped, and a buffer accepts a
//! GPU-visible write only while it is unmapped.

use vstd::prelude::*;
use crate::error::RunError;

verus! {

/// The usages a buffer was allocated with: everything the device or the host
/// is allowed to do with it.
#[derive(Clone, Copy, Debug, PartialEq, Eq, Structural)]
pub struct BufferUsages {
    /// The shader may read and write it as a storage buffer.
    pub storage: bool,
    /// It may be the source of a buffer-to-buffer copy.
    pub copy_src: bool,
    /// It may be the destination of a buffer-to-buffer copy.
    pub copy_dst: bool,
    /// The host may map it for reading.
    pub map_read: bool,
    /// The host may map it for writing.
    pub map_write: bool,
}

/// The mapping state machine of one buffer. Host reads and writes of the
/// bytes are legal only in `Mapped`; the device may write the buffer only in
/// `Unmapped`.
#[derive(Clone, Copy, Debug, PartialEq, Eq, Structural)]
pub enum MapState {
    /// Device-visible; the host must not touch the bytes.
    Unmapped,
    /// A host mapping was requested and has not resolved yet.
    MapRequested,
    /// Host-visible; the bytes may be read or written by host code.
    Mapped,
}

/// A byte region of a given length, all zero: the content of a fresh,
/// unpopulated allocation.
pub open spec fn zero_bytes(n: nat) -> Seq<u8> {
    Seq::new(n, |i: int| 0u8)
}

/// The bytes of `dst` with the `size`-byte region at `dst_offset` replaced by
/// the region of `src` starting at `src_offset`: the effect of a
/// buffer-to-buffer copy command.
pub open spec fn copy_region(
    src: Seq<u8>,
    dst: Seq<u8>,
    src_offset: int,
    dst_offset: int,
    size: int,
) -> Seq<u8>
    recommends
        0 <= src_offset,
        0 <= dst_offset,
        0 <= size,
        src_offset + size <= src.len(),
        dst_offset + size <= dst.len(),
{
    Seq::new(
        dst.len(),
        |i: int|
            if dst_offset <= i && i < dst_offset + size {
                src[i - dst_offset + src_offset]
            } else {
                dst[i]
            },
    )
}

/// A device buffer. The fields are private: the only way to observe the
/// bytes from executable code is through the map-state-gated methods, so a
/// host read before the buffer is mapped is unreachable by construction.
pub struct DeviceBuffer {
    contents: Vec<u8>,
    usages: BufferUsages,
    map_state: MapState,
}

impl DeviceBuffer {
    /// The bytes currently resident in the buffer.
    pub closed spec fn bytes(&self) -> Seq<u8> {
        self.contents@
    }

    /// The usages the buffer was allocated with.
    pub closed spec fn usage(&self) -> BufferUsages {
        self.usages
    }

    /// Where the buffer stands in its mapping state machine.
    pub closed spec fn state(&self) -> MapState {
        self.map_state
    }

    /// Allocates a zero-filled buffer of `size` bytes. With
    /// `mapped_at_creation` the buffer starts out host-visible, so its
    /// initial content can be written before the first unmap.
    pub fn create(size: usize, usages: BufferUsages, mapped_at_creation: bool) -> (r: DeviceBuffer)
        ensures
            r.bytes() == zero_bytes(size as nat),
            r.usage() == usages,
            r.state() == if mapped_at_creation {
                MapState::Mapped
            } else {
                MapState::Unmapped
            },
    {
        let mut contents: Vec<u8> = Vec::new();
        let mut i: usize = 0;
        while i < size
            invariant
                i <= size,
                contents@.len() == i,
                forall|j: int| 0 <= j < i ==> contents@[j] == 0u8,
            decreases size - i,
        {
            contents.push(0u8);
            i = i + 1;
        }
        proof {
            assert(contents@ =~= zero_bytes(size as nat));
        }
        DeviceBuffer {
            contents,
            usages,
            map_state: if mapped_at_creation {
                MapState::Mapped
            } else {
                MapState::Unmapped
            },
        }
    }

    /// Allocates a buffer and populates it with `contents` in one step, the
    /// upload-helper path: the buffer is device-visible immediately, no
    /// explicit write is ever observable.
    pub fn create_init(contents: Vec<u8>, usages: BufferUsages) -> (r: DeviceBuffer)
        ensures
            r.bytes() == contents@,
            r.usage() == usages,
            r.state() == MapState::Unmapped,
    {
        DeviceBuffer { contents, usages, map_state: MapState::Unmapped }
    }

    /// The buffer's size in bytes.
    pub fn size(&self) -> (r: usize)
        ensures
            r == self.bytes().len(),
    {
        self.contents.len()
    }

    /// Overwrites the full extent of a mapped buffer with `data`, the host
    /// write into the mapped range of a buffer created mapped.
    pub fn write_mapped(&mut self, data: &Vec<u8>)
        requires
            old(self).state() == MapState::Mapped,
            data@.len() == old(self).bytes().len(),
        ensures
            final(self).bytes() == data@,
            final(self).usage() == old(self).usage(),
            final(self).state() == MapState::Mapped,
    {
        let mut copied: Vec<u8> = Vec::new();
        let mut i: usize = 0;
        while i < data.len()
            invariant
                i <= data@.len(),
                copied@ == data@.take(i as int),
            decreases data@.len() - i,
        {
            copied.push(data[i]);
            proof {
                assert(copied@ =~= data@.take(i + 1));
            }
            i = i + 1;
        }
        proof {
            assert(data@.take(data@.len() as int) =~= data@);
        }
        self.contents = copied;
    }

    /// Returns the buffer to the device-visible state, flushing any host
    /// writes. The bytes are unchanged.
    pub fn unmap(&mut self)
        requires
            old(self).state() == MapState::Mapped,
        ensures
            final(self).bytes() == old(self).bytes(),
            final(self).usage() == old(self).usage(),
            final(self).state() == MapState::Unmapped,
    {
        self.map_state = MapState::Unmapped;
    }

    /// Issues an asynchronous host-read mapping request. Exactly one request
    /// may be outstanding per buffer: a second request while one is pending
    /// or while the buffer is still mapped is rejected, and the buffer is
    /// left as it was.
    pub fn request_map_read(&mut self) -> (r: Result<(), RunError>)
        requires
            old(self).usage().map_read,
        ensures
            r is Ok <==> old(self).state() == MapState::Unmapped,
            r is Ok ==> final(self).state() == MapState::MapRequested,
            r is Err ==> r == Err::<(), RunError>(RunError::MappingFailed) && final(self).state()
                == old(self).state(),
            final(self).bytes() == old(self).bytes(),
            final(self).usage() == old(self).usage(),
    {
        match self.map_state {
            MapState::Unmapped => {
                self.map_state = MapState::MapRequested;
                Ok(())
            },
            _ => Err(RunError::MappingFailed),
        }
    }

    /// Resolves an outstanding mapping request: all device work touching the
    /// buffer has completed and the bytes are now host-readable.
    pub fn complete_map(&mut self)
        requires
            old(self).state() == MapState::MapRequested,
        ensures
            final(self).bytes() == old(self).bytes(),
            final(self).usage() == old(self).usage(),
            final(self).state() == MapState::Mapped,
    {
        self.map_state = MapState::Mapped;
    }

    /// Copies the mapped bytes out into a new owned vector. Only a mapped,
    /// host-readable buffer can be read: the borrow of the mapped range ends
    /// with this call, before any later unmap.
    pub fn read_mapped(&self) -> (r: Vec<u8>)
        requires
            self.state() == MapState::Mapped,
            self.usage().map_read,
        ensures
            r@ == self.bytes(),
    {
        let mut out: Vec<u8> = Vec::new();
        let mut i: usize = 0;
        while i < self.contents.len()
            invariant
                i <= self.contents@.len(),
                out@ == self.contents@.take(i as int),
            decreases self.contents@.len() - i,
        {
            out.push(self.contents[i]);
            proof {
                assert(out@ =~= self.contents@.take(i + 1));
            }
            i = i + 1;
        }
        proof {
            assert(self.contents@.take(self.contents@.len() as int) =~= self.contents@);
        }
        out
    }

    /// Executes a buffer-to-buffer copy into this buffer: the device write
    /// that lands the working buffer's bytes in the staging buffer. Both
    /// sides must be device-visible and allocated with the matching copy
    /// usages, and the regions must lie inside both buffers.
    pub fn copy_from(
        &mut self,
        src: &DeviceBuffer,
        src_offset: usize,
        dst_offset: usize,
        size: usize,
    )
        requires
            old(self).state() == MapState::Unmapped,
            src.state() == MapState::Unmapped,
            old(self).usage().copy_dst,
            src.usage().copy_src,
            src_offset + size <= src.bytes().len(),
            dst_offset + size <= old(self).bytes().len(),
        ensures
            final(self).bytes() == copy_region(
                src.bytes(),
                old(self).bytes(),
                src_offset as int,
                dst_offset as int,
                size as int,
            ),
            final(self).usage() == old(self).usage(),
            final(self).state() == MapState::Unmapped,
    {
        let src_len: usize = src.contents.len();
        let dst_len: usize = self.contents.len();
        let mut j: usize = 0;
        while j < size
            invariant
                j <= size,
                src_len == src.bytes().len(),
                dst_len == self.contents@.len(),
                src_offset + size <= src_len,
                dst_offset + size <= dst_len,
                self.usages == old(self).usage(),
                self.map_state == MapState::Unmapped,
                self.contents@.len() == old(self).bytes().len(),
                forall|i: int|
                    0 <= i < self.contents@.len() ==> self.contents@[i] == (if dst_offset <= i && i
                        < dst_offset + j {
                        src.bytes()[i - dst_offset + src_offset]
                    } else {
                        old(self).bytes()[i]
                    }),
            decreases size - j,
    {
            let b = src.contents[src_offset + j];
            self.contents[dst_offset + j] = b;
            j = j + 1;
        }
        proof {
            assert(self.contents@ =~= copy_region(
                src.bytes(),
                old(self).bytes(),
                src_offset as int,
                dst_offset as int,
                size as int,
            ));
        }
    }
}

} // verus!
