//! The whole round trip, strictly sequential: provision the working buffer,
//! build the pipeline, compose and submit the command sequence, synchronize
//! with device completion through the mapping protocol, decode the staging
//! buffer, and hand the integers back. Under an identity compute program the
//! decoded output is exactly the input, whichever provisioning strategy was
//! chosen.

use vstd::prelude::*;
use crate::buffer::{BufferUsages, DeviceBuffer, zero_bytes};
use crate::codec::{bytes_of_words, decode_words, lemma_bytes_of_words_len, lemma_codec_round_trip};
use crate::commands::{compose_commands, execute_identity, lemma_composed_effect, lemma_composed_ok};
use crate::error::RunError;
use crate::pipeline::{build_bind_group, build_pipeline};
use crate::provision::{ProvisionStrategy, provision_working_buffer};
use crate::sync::Synchronizer;

verus! {

/// How many elements the working and staging buffers hold.
pub const BUFFER_ENTRIES: u32 = 64;

/// The compute dispatch granularity.
pub const WORKGROUP_SIZE: u32 = 8;

/// The first value of the default input sequence.
pub const INPUT_START: u32 = 100;

/// Whether the Buffer Provisioner maps the working buffer at creation.
/// Mapping it makes the written bytes visible to low-level GPU-debugger
/// captures, which cannot see the data of a buffer populated by the upload
/// helper.
pub const USE_MAPPABLE_BUFFERS: bool = false;

/// The provisioning strategy the configuration flag selects.
pub open spec fn spec_selected_strategy(use_mappable_buffers: bool) -> ProvisionStrategy {
    if use_mappable_buffers {
        ProvisionStrategy::MapAtCreation
    } else {
        ProvisionStrategy::UploadInit
    }
}

/// Selects the provisioning strategy from the configuration flag.
pub fn selected_strategy(use_mappable_buffers: bool) -> (r: ProvisionStrategy)
    ensures
        r == spec_selected_strategy(use_mappable_buffers),
{
    if use_mappable_buffers {
        ProvisionStrategy::MapAtCreation
    } else {
        ProvisionStrategy::UploadInit
    }
}

/// The known input data: `count` consecutive integers starting at `start`.
pub fn input_sequence(start: u32, count: u32) -> (r: Vec<u32>)
    requires
        start + count <= u32::MAX,
    ensures
        r@.len() == count,
        forall|i: int| 0 <= i < count ==> r@[i] == start + i,
{
    let mut out: Vec<u32> = Vec::new();
    let mut i: u32 = 0;
    while i < count
        invariant
            i <= count,
            start + count <= u32::MAX,
            out@.len() == i,
            forall|j: int| 0 <= j < i ==> out@[j] == start + j,
        decreases count - i,
    {
        out.push(start + i);
        i = i + 1;
    }
    out
}

/// Runs the workload once against a device whose compute program is the
/// identity transform: provisions the working buffer with `input`, builds
/// the fixed pipeline, records and submits the command sequence, drives the
/// mapping protocol to completion, and decodes the staging buffer.
///
/// `entry_point_found` is what the device reports of the opaque shader
/// program; `implicit_polling` says whether the host environment drives the
/// event loop itself, in which case the explicit poll is skipped. The run
/// succeeds exactly when the buffer fits the device limit and the program
/// builds, and then returns the input sequence unchanged, in order —
/// whichever provisioning strategy was selected.
pub fn run_round_trip(
    input: &Vec<u32>,
    strategy: ProvisionStrategy,
    workgroup_size: u32,
    max_buffer_size: u64,
    entry_point_found: bool,
    implicit_polling: bool,
) -> (r: Result<Vec<u32>, RunError>)
    requires
        workgroup_size > 0,
        input@.len() <= u32::MAX,
        4 * input@.len() <= usize::MAX,
    ensures
        r is Ok <==> (4 * input@.len() <= max_buffer_size && entry_point_found),
        4 * input@.len() > max_buffer_size ==> r == Err::<Vec<u32>, RunError>(
            RunError::DeviceResourceExhausted,
        ),
        4 * input@.len() <= max_buffer_size && !entry_point_found ==> r == Err::<Vec<u32>, RunError>(
            RunError::ShaderCompilationFailed,
        ),
        r is Ok ==> r.unwrap()@ == input@,
{
    let mut working = match provision_working_buffer(input, strategy, max_buffer_size) {
        Ok(b) => b,
        Err(e) => {
            return Err(e);
        },
    };
    let byte_len: usize = input.len() * 4;
    proof {
        lemma_bytes_of_words_len(input@);
    }
    let mut staging = DeviceBuffer::create(
        byte_len,
        BufferUsages {
            storage: false,
            copy_src: false,
            copy_dst: true,
            map_read: true,
            map_write: false,
        },
        false,
    );
    let pipeline = match build_pipeline(entry_point_found) {
        Ok(p) => p,
        Err(e) => {
            return Err(e);
        },
    };
    let bind_group = build_bind_group();
    let element_count = input.len() as u32;
    let sequence = compose_commands(&pipeline, &bind_group, element_count, workgroup_size, byte_len);
    let mut synchronizer = Synchronizer::new();
    synchronizer.submit(&sequence);
    proof {
        lemma_composed_ok(
            element_count,
            workgroup_size,
            byte_len,
            bind_group.slot,
            working.bytes().len(),
            staging.bytes().len(),
        );
    }
    execute_identity(&sequence, &mut working, &mut staging);
    proof {
        lemma_composed_effect(
            bytes_of_words(input@),
            zero_bytes(byte_len as nat),
            element_count,
            workgroup_size,
            byte_len,
            bind_group.slot,
        );
        assert(staging.bytes() == bytes_of_words(input@));
    }
    let mut signal = match synchronizer.request_map(&mut staging) {
        Ok(s) => s,
        Err(e) => {
            return Err(e);
        },
    };
    // Whether driven explicitly here or by the host environment itself,
    // polling guarantees the mapping is ready, and only then does the
    // device fire the completion callback.
    let _explicit_drive = synchronizer.poll_device(implicit_polling);
    signal.fire_success();
    match synchronizer.receive_signal(&mut signal) {
        Ok(()) => {},
        Err(e) => {
            return Err(e);
        },
    }
    synchronizer.complete_mapping(&mut staging);
    let raw = staging.read_mapped();
    let decoded = decode_words(&raw);
    staging.unmap();
    proof {
        lemma_codec_round_trip(input@);
    }
    Ok(decoded)
}

} // verus!
