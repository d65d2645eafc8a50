//! The Pipeline Builder: assembles the fixed compute pipeline around the
//! opaque shader program — one binding layout describing a single mutable
//! storage-buffer slot visible only to compute stages, a pipeline layout
//! referencing it, and the compiled pipeline bound to the program's entry
//! point. Building is deterministic; a program that fails to build against
//! the layout is a programming error and fails the run at once.

use vstd::prelude::*;
use crate::error::RunError;

verus! {

/// The declared shape of the one shader-visible slot: a read-write storage
/// buffer, visible to compute stages only.
#[derive(Clone, Copy, Debug, PartialEq, Eq, Structural)]
pub struct BindingLayout {
    /// The slot the buffer is bound at.
    pub slot: u32,
    /// Visible to compute stages only.
    pub compute_visible: bool,
    /// A storage buffer the shader may write, not a read-only one.
    pub writable_storage: bool,
}

/// The pipeline layout: exactly one binding layout, no push constants.
#[derive(Clone, Copy, Debug, PartialEq, Eq, Structural)]
pub struct PipelineLayout {
    /// The single bind-group layout the pipeline references.
    pub binding: BindingLayout,
}

/// The compiled compute pipeline, bound to the program's entry point.
#[derive(Clone, Copy, Debug, PartialEq, Eq, Structural)]
pub struct ComputePipeline {
    /// The layout the program was compiled against.
    pub layout: PipelineLayout,
}

/// The association of the working buffer with the shader-visible slot.
#[derive(Clone, Copy, Debug, PartialEq, Eq, Structural)]
pub struct BindGroup {
    /// The slot the working buffer is bound at.
    pub slot: u32,
}

/// The one fixed binding layout of this workload: slot zero, compute-only,
/// read-write storage.
pub open spec fn fixed_binding_layout() -> BindingLayout {
    BindingLayout { slot: 0, compute_visible: true, writable_storage: true }
}

/// The one fixed pipeline of this workload.
pub open spec fn fixed_pipeline() -> ComputePipeline {
    ComputePipeline { layout: PipelineLayout { binding: fixed_binding_layout() } }
}

/// Builds the binding layout, pipeline layout and compiled pipeline for the
/// opaque compute program. `entry_point_found` is what the device reports of
/// the program: whether its entry symbol exists and builds against this
/// layout. Failure is fatal and surfaced immediately — it indicates a
/// programming error, not a transient condition.
pub fn build_pipeline(entry_point_found: bool) -> (r: Result<ComputePipeline, RunError>)
    ensures
        r is Ok <==> entry_point_found,
        r is Ok ==> r.unwrap() == fixed_pipeline(),
        r is Err ==> r == Err::<ComputePipeline, RunError>(RunError::ShaderCompilationFailed),
{
    if entry_point_found {
        Ok(
            ComputePipeline {
                layout: PipelineLayout {
                    binding: BindingLayout {
                        slot: 0,
                        compute_visible: true,
                        writable_storage: true,
                    },
                },
            },
        )
    } else {
        Err(RunError::ShaderCompilationFailed)
    }
}

/// Builds the bind group: the working buffer bound at slot zero.
pub fn build_bind_group() -> (r: BindGroup)
    ensures
        r.slot == 0,
{
    BindGroup { slot: 0 }
}

} // verus!
