//! The error taxonomy of the round trip. Every failure is fatal for the
//! single-shot workload: nothing is retried, the run aborts with a message
//! naming the stage that failed.

use vstd::prelude::*;

verus! {

/// Why a run aborted. Each variant identifies the stage that failed.
#[derive(Clone, Copy, Debug, PartialEq, Eq, Structural)]
pub enum RunError {
    /// No compatible GPU adapter was found.
    AdapterUnavailable,
    /// Feature or limit negotiation with the adapter failed.
    DeviceCreationFailed,
    /// A buffer or pipeline allocation exceeded the device limits.
    DeviceResourceExhausted,
    /// The compute program failed to build against the binding layout.
    ShaderCompilationFailed,
    /// A mapping request resolved with an error, or was issued while another
    /// was still outstanding on the same buffer.
    MappingFailed,
    /// The completion signal was never going to arrive.
    CompletionNeverSignaled,
}

/// The diagnostic text of each error variant.
pub open spec fn spec_message(e: RunError) -> Seq<char> {
    match e {
        RunError::AdapterUnavailable => "no compatible GPU adapter found"@,
        RunError::DeviceCreationFailed => "device creation failed"@,
        RunError::DeviceResourceExhausted => "device resource allocation failed"@,
        RunError::ShaderCompilationFailed => "compute program failed to build"@,
        RunError::MappingFailed => "buffer mapping request failed"@,
        RunError::CompletionNeverSignaled => "completion signal never arrived"@,
    }
}

impl RunError {
    /// A descriptive message identifying the stage that failed.
    pub fn message(&self) -> (r: &'static str)
        ensures
            r@ == spec_message(*self),
    {
        match self {
            RunError::AdapterUnavailable => "no compatible GPU adapter found",
            RunError::DeviceCreationFailed => "device creation failed",
            RunError::DeviceResourceExhausted => "device resource allocation failed",
            RunError::ShaderCompilationFailed => "compute program failed to build",
            RunError::MappingFailed => "buffer mapping request failed",
            RunError::CompletionNeverSignaled => "completion signal never arrived",
        }
    }
}

} // verus!
