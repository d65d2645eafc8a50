//! The Buffer Provisioner: turns a sequence of known input words into a
//! device-resident working buffer holding exactly their bytes, by one of two
//! strategies. Map-at-creation writes the bytes into the still-mapped fresh
//! allocation and unmaps; the upload helper allocates and populates in one
//! step. The strategies differ only in how debugging tools observe the
//! write, never in the bytes that end up on the device.

use vstd::prelude::*;
use crate::buffer::{BufferUsages, DeviceBuffer, MapState, zero_bytes};
use crate::codec::{bytes_of_words, encode_words, lemma_bytes_of_words_len};
use crate::error::RunError;

verus! {

/// How the working buffer gets its initial data onto the device.
#[derive(Clone, Copy, Debug, PartialEq, Eq, Structural)]
pub enum ProvisionStrategy {
    /// Allocate the buffer mapped, write the bytes into the mapped range,
    /// then unmap. Low-level GPU-debugger captures see the write as a step
    /// of its own.
    MapAtCreation,
    /// Allocate and populate in one call. Simpler, but the write is not
    /// observable separately from the allocation.
    UploadInit,
}

/// The usages the working buffer is allocated with under each strategy: a
/// shader-writable storage buffer that can be the source of the readback
/// copy, plus host write access where the strategy writes through a mapping.
pub open spec fn working_usages(strategy: ProvisionStrategy) -> BufferUsages {
    match strategy {
        ProvisionStrategy::MapAtCreation => BufferUsages {
            storage: true,
            copy_src: true,
            copy_dst: false,
            map_read: false,
            map_write: true,
        },
        ProvisionStrategy::UploadInit => BufferUsages {
            storage: true,
            copy_src: true,
            copy_dst: false,
            map_read: false,
            map_write: false,
        },
    }
}

/// A host write covering the whole mapped range: it replaces the allocation's
/// bytes when the lengths agree, and is not issued otherwise.
pub open spec fn overwrite_full(dst: Seq<u8>, src: Seq<u8>) -> Seq<u8> {
    if dst.len() == src.len() {
        src
    } else {
        dst
    }
}

/// The bytes each strategy leaves on the device: map-at-creation overwrites
/// a zero-filled allocation through the mapping, the upload helper lands the
/// input bytes directly.
pub open spec fn strategy_bytes(strategy: ProvisionStrategy, input: Seq<u32>) -> Seq<u8> {
    match strategy {
        ProvisionStrategy::MapAtCreation => overwrite_full(
            zero_bytes(4 * input.len()),
            bytes_of_words(input),
        ),
        ProvisionStrategy::UploadInit => bytes_of_words(input),
    }
}

/// Both provisioning strategies, given the same input sequence, leave
/// identical byte contents on the device: the byte image of the input words.
pub proof fn lemma_provision_equivalence(
    a: ProvisionStrategy,
    b: ProvisionStrategy,
    input: Seq<u32>,
)
    ensures
        strategy_bytes(a, input) == strategy_bytes(b, input),
        strategy_bytes(a, input) == bytes_of_words(input),
{
    lemma_bytes_of_words_len(input);
}

/// Produces the working buffer: device-visible, populated with exactly the
/// bytes of `input`, ready for storage and copy-source use. Fails closed
/// with `DeviceResourceExhausted` exactly when the requested size exceeds
/// the device's buffer limit; no buffer is handed out on failure.
pub fn provision_working_buffer(
    input: &Vec<u32>,
    strategy: ProvisionStrategy,
    max_buffer_size: u64,
) -> (r: Result<DeviceBuffer, RunError>)
    requires
        4 * input@.len() <= usize::MAX,
    ensures
        r is Ok <==> 4 * input@.len() <= max_buffer_size,
        r is Err ==> r == Err::<DeviceBuffer, RunError>(RunError::DeviceResourceExhausted),
        r is Ok ==> r.unwrap().bytes() == strategy_bytes(strategy, input@),
        r is Ok ==> r.unwrap().bytes() == bytes_of_words(input@),
        r is Ok ==> r.unwrap().state() == MapState::Unmapped,
        r is Ok ==> r.unwrap().usage() == working_usages(strategy),
{
    let byte_len: usize = input.len() * 4;
    if (byte_len as u64) > max_buffer_size {
        return Err(RunError::DeviceResourceExhausted);
    }
    proof {
        lemma_bytes_of_words_len(input@);
    }
    match strategy {
        ProvisionStrategy::MapAtCreation => {
            let usages = BufferUsages {
                storage: true,
                copy_src: true,
                copy_dst: false,
                map_read: false,
                map_write: true,
            };
            let mut buf = DeviceBuffer::create(byte_len, usages, true);
            let data = encode_words(input);
            buf.write_mapped(&data);
            buf.unmap();
            Ok(buf)
        },
        ProvisionStrategy::UploadInit => {
            let usages = BufferUsages {
                storage: true,
                copy_src: true,
                copy_dst: false,
                map_read: false,
                map_write: false,
            };
            let data = encode_words(input);
            Ok(DeviceBuffer::create_init(data, usages))
        },
    }
}

} // verus!
