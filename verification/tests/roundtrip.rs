use gpu_roundtrip::error::RunError;
use gpu_roundtrip::harness::{
    input_sequence, run_round_trip, selected_strategy, BUFFER_ENTRIES, INPUT_START,
    USE_MAPPABLE_BUFFERS, WORKGROUP_SIZE,
};
use gpu_roundtrip::provision::ProvisionStrategy;

const DOWNLEVEL_MAX_BUFFER_SIZE: u64 = 268435456;

#[test]
fn concrete_scenario_upload_init() {
    let input = input_sequence(INPUT_START, BUFFER_ENTRIES);
    let result = run_round_trip(
        &input,
        ProvisionStrategy::UploadInit,
        WORKGROUP_SIZE,
        DOWNLEVEL_MAX_BUFFER_SIZE,
        true,
        false,
    )
    .expect("round trip failed");
    let expected: Vec<u32> = (100..164).collect();
    assert_eq!(result.len(), 64);
    assert_eq!(result, expected);
}

#[test]
fn concrete_scenario_map_at_creation() {
    let input = input_sequence(INPUT_START, BUFFER_ENTRIES);
    let result = run_round_trip(
        &input,
        ProvisionStrategy::MapAtCreation,
        WORKGROUP_SIZE,
        DOWNLEVEL_MAX_BUFFER_SIZE,
        true,
        false,
    )
    .expect("round trip failed");
    let expected: Vec<u32> = (100..164).collect();
    assert_eq!(result, expected);
}

#[test]
fn provisioning_strategies_agree_after_round_trip() {
    let input = input_sequence(7, 33);
    let mapped = run_round_trip(
        &input,
        ProvisionStrategy::MapAtCreation,
        WORKGROUP_SIZE,
        DOWNLEVEL_MAX_BUFFER_SIZE,
        true,
        false,
    )
    .expect("map-at-creation round trip failed");
    let uploaded = run_round_trip(
        &input,
        ProvisionStrategy::UploadInit,
        WORKGROUP_SIZE,
        DOWNLEVEL_MAX_BUFFER_SIZE,
        true,
        false,
    )
    .expect("upload-init round trip failed");
    assert_eq!(mapped, uploaded);
    assert_eq!(mapped, input);
}

#[test]
fn round_trip_keeps_order_and_values() {
    let input = vec![9, 3, 3, 0, u32::MAX, 42];
    let result = run_round_trip(
        &input,
        ProvisionStrategy::UploadInit,
        4,
        DOWNLEVEL_MAX_BUFFER_SIZE,
        true,
        true,
    )
    .expect("round trip failed");
    assert_eq!(result, input);
}

#[test]
fn round_trip_of_empty_input() {
    let input: Vec<u32> = Vec::new();
    let result = run_round_trip(
        &input,
        ProvisionStrategy::UploadInit,
        WORKGROUP_SIZE,
        DOWNLEVEL_MAX_BUFFER_SIZE,
        true,
        false,
    )
    .expect("round trip failed");
    assert!(result.is_empty());
}

#[test]
fn round_trip_covers_non_divisible_element_count() {
    let input = input_sequence(100, 65);
    let result = run_round_trip(
        &input,
        ProvisionStrategy::UploadInit,
        8,
        DOWNLEVEL_MAX_BUFFER_SIZE,
        true,
        false,
    )
    .expect("round trip failed");
    assert_eq!(result.len(), 65);
    assert_eq!(result, input);
}

#[test]
fn oversized_buffer_is_resource_exhaustion() {
    let input = input_sequence(INPUT_START, BUFFER_ENTRIES);
    let result = run_round_trip(
        &input,
        ProvisionStrategy::UploadInit,
        WORKGROUP_SIZE,
        255,
        true,
        false,
    );
    assert_eq!(result, Err(RunError::DeviceResourceExhausted));
}

#[test]
fn missing_entry_point_is_shader_compilation_failure() {
    let input = input_sequence(INPUT_START, BUFFER_ENTRIES);
    let result = run_round_trip(
        &input,
        ProvisionStrategy::UploadInit,
        WORKGROUP_SIZE,
        DOWNLEVEL_MAX_BUFFER_SIZE,
        false,
        false,
    );
    assert_eq!(result, Err(RunError::ShaderCompilationFailed));
}

#[test]
fn resource_exhaustion_takes_precedence_over_shader_failure() {
    let input = input_sequence(INPUT_START, BUFFER_ENTRIES);
    let result = run_round_trip(
        &input,
        ProvisionStrategy::MapAtCreation,
        WORKGROUP_SIZE,
        16,
        false,
        false,
    );
    assert_eq!(result, Err(RunError::DeviceResourceExhausted));
}

#[test]
fn strategy_flag_selects_provisioner() {
    assert_eq!(
        selected_strategy(true),
        ProvisionStrategy::MapAtCreation
    );
    assert_eq!(selected_strategy(false), ProvisionStrategy::UploadInit);
    assert_eq!(selected_strategy(USE_MAPPABLE_BUFFERS), ProvisionStrategy::UploadInit);
}

#[test]
fn input_sequence_is_consecutive() {
    let input = input_sequence(INPUT_START, BUFFER_ENTRIES);
    assert_eq!(input.len(), 64);
    assert_eq!(input[0], 100);
    assert_eq!(input[63], 163);
    for (i, v) in input.iter().enumerate() {
        assert_eq!(*v, 100 + i as u32);
    }
}
