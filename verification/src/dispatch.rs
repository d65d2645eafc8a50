//! Sizing of the one-dimensional compute grid: how many workgroups must be
//! dispatched so that every element of the working buffer is covered.

use vstd::prelude::*;

verus! {

/// The number of workgroups needed to cover `element_count` elements when each
/// workgroup handles `workgroup_size` of them: the ceiling of their quotient.
pub open spec fn spec_dispatch_count(element_count: nat, workgroup_size: nat) -> nat
    recommends
        workgroup_size > 0,
{
    ((element_count + workgroup_size - 1) / workgroup_size as int) as nat
}

/// Number of workgroups dispatched in the first grid axis. Rounds up, so
/// element counts not divisible by the workgroup size are still fully
/// covered; the shader is responsible for bounds-checking the overrun
/// indices.
pub fn dispatch_count(element_count: u32, workgroup_size: u32) -> (r: u32)
    requires
        workgroup_size > 0,
    ensures
        r == spec_dispatch_count(element_count as nat, workgroup_size as nat),
        r as int * workgroup_size as int >= element_count as int,
        element_count > 0 ==> (r as int - 1) * (workgroup_size as int) < element_count as int,
        element_count == 0 ==> r == 0,
{
    let wide: u64 = (element_count as u64 + workgroup_size as u64 - 1) / workgroup_size as u64;
    proof {
        lemma_dispatch_count_bounds(element_count as nat, workgroup_size as nat);
    }
    wide as u32
}

/// The ceiling quotient covers all elements, wastes less than one full
/// workgroup, and never exceeds the element count itself.
pub proof fn lemma_dispatch_count_bounds(element_count: nat, workgroup_size: nat)
    requires
        workgroup_size > 0,
    ensures
        spec_dispatch_count(element_count, workgroup_size) * workgroup_size >= element_count,
        element_count > 0 ==> (spec_dispatch_count(element_count, workgroup_size) - 1)
            * workgroup_size < element_count,
        spec_dispatch_count(element_count, workgroup_size) <= element_count,
        element_count == 0 ==> spec_dispatch_count(element_count, workgroup_size) == 0,
{
    let q = spec_dispatch_count(element_count, workgroup_size);
    assert(q * workgroup_size >= element_count && (element_count > 0 ==> (q - 1) * workgroup_size
        < element_count) && q <= element_count) by (nonlinear_arith)
        requires
            workgroup_size > 0,
            q == (element_count + workgroup_size - 1) / workgroup_size as int,
    ;
}

} // verus!
