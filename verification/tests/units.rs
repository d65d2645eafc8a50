use gpu_roundtrip::buffer::{BufferUsages, DeviceBuffer};
use gpu_roundtrip::codec::{decode_words, encode_words};
use gpu_roundtrip::commands::{compose_commands, GpuCommand};
use gpu_roundtrip::dispatch::dispatch_count;
use gpu_roundtrip::error::RunError;
use gpu_roundtrip::pipeline::{build_bind_group, build_pipeline};
use gpu_roundtrip::sync::Synchronizer;

#[test]
fn dispatch_count_is_exact_on_even_split() {
    assert_eq!(dispatch_count(64, 8), 8);
}

#[test]
fn dispatch_count_rounds_up() {
    assert_eq!(dispatch_count(65, 8), 9);
    assert_eq!(dispatch_count(1, 8), 1);
    assert_eq!(dispatch_count(7, 8), 1);
    assert_eq!(dispatch_count(9, 8), 2);
}

#[test]
fn dispatch_count_of_nothing_is_zero() {
    assert_eq!(dispatch_count(0, 8), 0);
    assert_eq!(dispatch_count(0, 1), 0);
}

#[test]
fn dispatch_count_at_extremes() {
    assert_eq!(dispatch_count(u32::MAX, 1), u32::MAX);
    assert_eq!(dispatch_count(u32::MAX, u32::MAX), 1);
    assert_eq!(dispatch_count(1, u32::MAX), 1);
}

#[test]
fn words_encode_little_endian() {
    let encoded = encode_words(&vec![0x01020304]);
    assert_eq!(encoded, vec![0x04, 0x03, 0x02, 0x01]);
    let encoded = encode_words(&vec![100, 101]);
    assert_eq!(encoded, vec![100, 0, 0, 0, 101, 0, 0, 0]);
    assert_eq!(encode_words(&Vec::new()), Vec::<u8>::new());
}

#[test]
fn bytes_decode_little_endian() {
    let decoded = decode_words(&vec![0x04, 0x03, 0x02, 0x01]);
    assert_eq!(decoded, vec![0x01020304]);
    let decoded = decode_words(&vec![100, 0, 0, 0, 101, 0, 0, 0]);
    assert_eq!(decoded, vec![100, 101]);
    assert_eq!(decode_words(&Vec::new()), Vec::<u32>::new());
}

#[test]
fn codec_round_trips_concrete_values() {
    let words = vec![0, 1, u32::MAX, 0xdeadbeef, 163];
    assert_eq!(decode_words(&encode_words(&words)), words);
}

fn staging_usages() -> BufferUsages {
    BufferUsages {
        storage: false,
        copy_src: false,
        copy_dst: true,
        map_read: true,
        map_write: false,
    }
}

#[test]
fn staging_buffer_maps_and_reads_back() {
    let mut buffer = DeviceBuffer::create_init(vec![4, 3, 2, 1], staging_usages());
    assert_eq!(buffer.size(), 4);
    buffer
        .request_map_read()
        .expect("first mapping request must be accepted");
    buffer.complete_map();
    assert_eq!(buffer.read_mapped(), vec![4, 3, 2, 1]);
    buffer.unmap();
}

#[test]
fn second_mapping_request_is_rejected() {
    let mut buffer = DeviceBuffer::create_init(vec![0, 0, 0, 0], staging_usages());
    assert_eq!(buffer.request_map_read(), Ok(()));
    assert_eq!(buffer.request_map_read(), Err(RunError::MappingFailed));
}

#[test]
fn mapping_request_on_mapped_buffer_is_rejected() {
    let mut buffer = DeviceBuffer::create(8, staging_usages(), true);
    assert_eq!(buffer.request_map_read(), Err(RunError::MappingFailed));
    buffer.unmap();
    assert_eq!(buffer.request_map_read(), Ok(()));
}

#[test]
fn buffer_created_mapped_accepts_initial_write() {
    let working = BufferUsages {
        storage: true,
        copy_src: true,
        copy_dst: false,
        map_read: true,
        map_write: true,
    };
    let mut buffer = DeviceBuffer::create(4, working, true);
    assert_eq!(buffer.read_mapped(), vec![0, 0, 0, 0]);
    buffer.write_mapped(&vec![9, 8, 7, 6]);
    assert_eq!(buffer.read_mapped(), vec![9, 8, 7, 6]);
    buffer.unmap();
}

#[test]
fn composed_sequence_has_the_recorded_shape() {
    let pipeline = build_pipeline(true).expect("pipeline must build");
    let bind_group = build_bind_group();
    let sequence = compose_commands(&pipeline, &bind_group, 64, 8, 256);
    assert_eq!(sequence.len(), 4);
    assert_eq!(sequence.command_at(0), GpuCommand::SetPipeline);
    assert_eq!(sequence.command_at(1), GpuCommand::SetBindGroup(0));
    assert_eq!(
        sequence.command_at(2),
        GpuCommand::DispatchWorkgroups(8, 1, 1)
    );
    assert_eq!(
        sequence.command_at(3),
        GpuCommand::CopyBufferToBuffer(0, 0, 256)
    );
}

#[test]
fn composed_sequence_rounds_the_grid_up() {
    let pipeline = build_pipeline(true).expect("pipeline must build");
    let bind_group = build_bind_group();
    let sequence = compose_commands(&pipeline, &bind_group, 65, 8, 260);
    assert_eq!(
        sequence.command_at(2),
        GpuCommand::DispatchWorkgroups(9, 1, 1)
    );
}

#[test]
fn pipeline_without_entry_point_fails_to_build() {
    assert_eq!(
        build_pipeline(false),
        Err(RunError::ShaderCompilationFailed)
    );
    let pipeline = build_pipeline(true).expect("pipeline must build");
    assert_eq!(pipeline.layout.binding.slot, 0);
    assert!(pipeline.layout.binding.compute_visible);
    assert!(pipeline.layout.binding.writable_storage);
}

#[test]
fn failed_mapping_surfaces_mapping_error() {
    let pipeline = build_pipeline(true).expect("pipeline must build");
    let bind_group = build_bind_group();
    let sequence = compose_commands(&pipeline, &bind_group, 1, 1, 4);
    let mut staging = DeviceBuffer::create_init(vec![0, 0, 0, 0], staging_usages());
    let mut synchronizer = Synchronizer::new();
    synchronizer.submit(&sequence);
    let mut signal = synchronizer
        .request_map(&mut staging)
        .expect("mapping request must be accepted");
    let _ = synchronizer.poll_device(false);
    signal.fire_failure();
    assert_eq!(
        synchronizer.receive_signal(&mut signal),
        Err(RunError::MappingFailed)
    );
}

#[test]
fn abandoned_signal_surfaces_completion_error() {
    let pipeline = build_pipeline(true).expect("pipeline must build");
    let bind_group = build_bind_group();
    let sequence = compose_commands(&pipeline, &bind_group, 1, 1, 4);
    let mut staging = DeviceBuffer::create_init(vec![0, 0, 0, 0], staging_usages());
    let mut synchronizer = Synchronizer::new();
    synchronizer.submit(&sequence);
    let mut signal = synchronizer
        .request_map(&mut staging)
        .expect("mapping request must be accepted");
    let _ = synchronizer.poll_device(true);
    signal.abandon();
    assert_eq!(
        synchronizer.receive_signal(&mut signal),
        Err(RunError::CompletionNeverSignaled)
    );
}

#[test]
fn error_messages_name_the_stage() {
    assert_eq!(
        RunError::AdapterUnavailable.message(),
        "no compatible GPU adapter found"
    );
    assert_eq!(
        RunError::DeviceCreationFailed.message(),
        "device creation failed"
    );
    assert_eq!(
        RunError::DeviceResourceExhausted.message(),
        "device resource allocation failed"
    );
    assert_eq!(
        RunError::ShaderCompilationFailed.message(),
        "compute program failed to build"
    );
    assert_eq!(
        RunError::MappingFailed.message(),
        "buffer mapping request failed"
    );
    assert_eq!(
        RunError::CompletionNeverSignaled.message(),
        "completion signal never arrived"
    );
}
