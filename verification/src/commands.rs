//! The Command Composer: records the fixed command sequence — bind the
//! pipeline and its one bind group, dispatch a one-dimensional grid covering
//! the working buffer, end the compute pass, copy the working buffer into
//! the staging buffer — into a mutable encoder and seals it. Recording into
//! a sealed sequence is impossible by construction, and the copy can only be
//! recorded once the compute pass has ended.

use vstd::prelude::*;
use crate::buffer::{DeviceBuffer, MapState, copy_region};
use crate::dispatch::{dispatch_count, spec_dispatch_count};
use crate::pipeline::{BindGroup, ComputePipeline};

verus! {

/// One recorded GPU operation.
#[derive(Clone, Copy, Debug, PartialEq, Eq, Structural)]
pub enum GpuCommand {
    /// Bind the compute pipeline for the commands that follow.
    SetPipeline,
    /// Bind the bind group at the given slot.
    SetBindGroup(u32),
    /// Dispatch a compute grid of the given extent in workgroups.
    DispatchWorkgroups(u32, u32, u32),
    /// Copy bytes between buffers: source offset, destination offset, size.
    CopyBufferToBuffer(usize, usize, usize),
}

/// A mutable recording of GPU operations. Binding and dispatching are legal
/// only inside an open compute pass; the buffer copy only once the pass has
/// ended. Sealing the encoder consumes it, so a sealed sequence can never be
/// recorded into again.
pub struct CommandEncoder {
    commands: Vec<GpuCommand>,
    pass_open: bool,
}

/// An ordered, immutable command sequence, ready for submission. It offers
/// no recording operations: sealing is a one-way transition.
pub struct CommandSequence {
    commands: Vec<GpuCommand>,
}

impl CommandEncoder {
    /// The operations recorded so far, in order.
    pub closed spec fn recorded(&self) -> Seq<GpuCommand> {
        self.commands@
    }

    /// Whether a compute pass is currently open.
    pub closed spec fn in_pass(&self) -> bool {
        self.pass_open
    }

    /// A fresh encoder: nothing recorded, no pass open.
    pub fn new() -> (r: CommandEncoder)
        ensures
            r.recorded() == Seq::<GpuCommand>::empty(),
            !r.in_pass(),
    {
        CommandEncoder { commands: Vec::new(), pass_open: false }
    }

    /// Opens the compute pass: the scoped region inside which all binding
    /// and dispatching must happen.
    pub fn begin_compute_pass(&mut self)
        requires
            !old(self).in_pass(),
        ensures
            final(self).recorded() == old(self).recorded(),
            final(self).in_pass(),
    {
        self.pass_open = true;
    }

    /// Records binding the compute pipeline.
    pub fn set_pipeline(&mut self)
        requires
            old(self).in_pass(),
        ensures
            final(self).recorded() == old(self).recorded().push(GpuCommand::SetPipeline),
            final(self).in_pass(),
    {
        self.commands.push(GpuCommand::SetPipeline);
    }

    /// Records binding the bind group at `slot`.
    pub fn set_bind_group(&mut self, slot: u32)
        requires
            old(self).in_pass(),
        ensures
            final(self).recorded() == old(self).recorded().push(GpuCommand::SetBindGroup(slot)),
            final(self).in_pass(),
    {
        self.commands.push(GpuCommand::SetBindGroup(slot));
    }

    /// Records dispatching a grid of `x` by `y` by `z` workgroups.
    pub fn dispatch_workgroups(&mut self, x: u32, y: u32, z: u32)
        requires
            old(self).in_pass(),
        ensures
            final(self).recorded() == old(self).recorded().push(
                GpuCommand::DispatchWorkgroups(x, y, z),
            ),
            final(self).in_pass(),
    {
        self.commands.push(GpuCommand::DispatchWorkgroups(x, y, z));
    }

    /// Ends the compute pass. All binding state recorded inside the pass is
    /// closed off; only now may a copy be recorded.
    pub fn end_compute_pass(&mut self)
        requires
            old(self).in_pass(),
        ensures
            final(self).recorded() == old(self).recorded(),
            !final(self).in_pass(),
    {
        self.pass_open = false;
    }

    /// Records a buffer-to-buffer copy. The compute pass must have ended:
    /// recording a copy inside an open pass is an API misuse and is ruled
    /// out here by the precondition.
    pub fn copy_buffer_to_buffer(&mut self, src_offset: usize, dst_offset: usize, size: usize)
        requires
            !old(self).in_pass(),
        ensures
            final(self).recorded() == old(self).recorded().push(
                GpuCommand::CopyBufferToBuffer(src_offset, dst_offset, size),
            ),
            !final(self).in_pass(),
    {
        self.commands.push(GpuCommand::CopyBufferToBuffer(src_offset, dst_offset, size));
    }

    /// Seals the recording. The encoder is consumed: no further operation
    /// can ever be recorded into the returned sequence.
    pub fn finish(self) -> (r: CommandSequence)
        requires
            !self.in_pass(),
        ensures
            r.commands() == self.recorded(),
    {
        CommandSequence { commands: self.commands }
    }
}

impl CommandSequence {
    /// The sealed operations, in recorded order.
    pub closed spec fn commands(&self) -> Seq<GpuCommand> {
        self.commands@
    }

    /// How many operations the sealed sequence holds.
    pub fn len(&self) -> (r: usize)
        ensures
            r == self.commands().len(),
    {
        self.commands.len()
    }

    /// The operation at position `i` of the sealed sequence.
    pub fn command_at(&self, i: usize) -> (r: GpuCommand)
        requires
            i < self.commands().len(),
        ensures
            r == self.commands()[i as int],
    {
        self.commands[i]
    }
}

/// The fixed command sequence of the round trip: bind pipeline and bind
/// group at slot zero, dispatch enough workgroups to cover every element,
/// then — after the pass has ended — copy the working buffer's full extent
/// into the staging buffer at the same offset and length.
pub open spec fn composed_commands(
    element_count: u32,
    workgroup_size: u32,
    byte_size: usize,
    slot: u32,
) -> Seq<GpuCommand>
    recommends
        workgroup_size > 0,
{
    seq![
        GpuCommand::SetPipeline,
        GpuCommand::SetBindGroup(slot),
        GpuCommand::DispatchWorkgroups(
            spec_dispatch_count(element_count as nat, workgroup_size as nat) as u32,
            1,
            1,
        ),
        GpuCommand::CopyBufferToBuffer(0, 0, byte_size),
    ]
}

/// Records and seals the round trip's command sequence, binding the given
/// pipeline and bind group.
pub fn compose_commands(
    pipeline: &ComputePipeline,
    bind_group: &BindGroup,
    element_count: u32,
    workgroup_size: u32,
    byte_size: usize,
) -> (r: CommandSequence)
    requires
        workgroup_size > 0,
    ensures
        r.commands() == composed_commands(element_count, workgroup_size, byte_size, bind_group.slot),
{
    let mut encoder = CommandEncoder::new();
    encoder.begin_compute_pass();
    encoder.set_pipeline();
    encoder.set_bind_group(bind_group.slot);
    let groups = dispatch_count(element_count, workgroup_size);
    encoder.dispatch_workgroups(groups, 1, 1);
    encoder.end_compute_pass();
    encoder.copy_buffer_to_buffer(0, 0, byte_size);
    let sealed = encoder.finish();
    proof {
        assert(sealed.commands() =~= composed_commands(
            element_count,
            workgroup_size,
            byte_size,
            bind_group.slot,
        ));
    }
    sealed
}

/// The composed sequence stays inside any pair of buffers at least
/// `byte_size` bytes long.
pub proof fn lemma_composed_ok(
    element_count: u32,
    workgroup_size: u32,
    byte_size: usize,
    slot: u32,
    working_len: nat,
    staging_len: nat,
)
    requires
        byte_size <= working_len,
        byte_size <= staging_len,
    ensures
        commands_ok(
            composed_commands(element_count, workgroup_size, byte_size, slot),
            working_len,
            staging_len,
        ),
{
    let cmds = composed_commands(element_count, workgroup_size, byte_size, slot);
    assert forall|i: int| 0 <= i < cmds.len() implies command_ok(
        #[trigger] cmds[i],
        working_len,
        staging_len,
    ) by {
        if i == 0 {
            assert(cmds[0] == GpuCommand::SetPipeline);
        } else if i == 1 {
            assert(cmds[1] == GpuCommand::SetBindGroup(slot));
        } else if i == 2 {
            assert(cmds[2] == GpuCommand::DispatchWorkgroups(
                spec_dispatch_count(element_count as nat, workgroup_size as nat) as u32,
                1,
                1,
            ));
        } else {
            assert(cmds[3] == GpuCommand::CopyBufferToBuffer(0, 0, byte_size));
        }
    }
}

/// Executing the composed sequence under an identity program leaves the
/// working buffer as it was and lands its full extent in the staging buffer:
/// both buffers end up with the working buffer's bytes.
pub proof fn lemma_composed_effect(
    working: Seq<u8>,
    staging: Seq<u8>,
    element_count: u32,
    workgroup_size: u32,
    byte_size: usize,
    slot: u32,
)
    requires
        working.len() == byte_size,
        staging.len() == byte_size,
    ensures
        run_commands_identity(
            working,
            staging,
            composed_commands(element_count, workgroup_size, byte_size, slot),
        ).0 == working,
        run_commands_identity(
            working,
            staging,
            composed_commands(element_count, workgroup_size, byte_size, slot),
        ).1 == working,
{
    let cmds = composed_commands(element_count, workgroup_size, byte_size, slot);
    reveal_with_fuel(run_commands_identity, 6);
    let rest1 = cmds.drop_first();
    let rest2 = rest1.drop_first();
    let rest3 = rest2.drop_first();
    let rest4 = rest3.drop_first();
    assert(cmds[0] == GpuCommand::SetPipeline);
    assert(rest1[0] == GpuCommand::SetBindGroup(slot));
    assert(rest2[0] == GpuCommand::DispatchWorkgroups(
        spec_dispatch_count(element_count as nat, workgroup_size as nat) as u32,
        1,
        1,
    ));
    assert(rest3[0] == GpuCommand::CopyBufferToBuffer(0, 0, byte_size));
    assert(rest4 =~= Seq::<GpuCommand>::empty());
    let copied = copy_region(working, staging, 0, 0, byte_size as int);
    assert(copied =~= working);
    assert(run_commands_identity(working, staging, cmds) == run_commands_identity(
        working,
        staging,
        rest1,
    ));
    assert(run_commands_identity(working, staging, rest1) == run_commands_identity(
        working,
        staging,
        rest2,
    ));
    assert(run_commands_identity(working, staging, rest2) == run_commands_identity(
        working,
        staging,
        rest3,
    ));
    assert(run_commands_identity(working, staging, rest3) == run_commands_identity(
        working,
        copied,
        rest4,
    ));
}

/// Whether one command stays inside buffers of the given byte lengths.
pub open spec fn command_ok(cmd: GpuCommand, working_len: nat, staging_len: nat) -> bool {
    match cmd {
        GpuCommand::CopyBufferToBuffer(src_offset, dst_offset, size) => src_offset + size
            <= working_len && dst_offset + size <= staging_len,
        _ => true,
    }
}

/// Whether every command of a sequence stays inside buffers of the given
/// byte lengths.
pub open spec fn commands_ok(cmds: Seq<GpuCommand>, working_len: nat, staging_len: nat) -> bool {
    forall|i: int| 0 <= i < cmds.len() ==> command_ok(#[trigger] cmds[i], working_len, staging_len)
}

/// The effect of one command on the two buffers' bytes, under an identity
/// compute program: binding records nothing observable, the dispatch leaves
/// the working buffer's bytes as they are, and the copy moves a region from
/// the working buffer into the staging buffer.
pub open spec fn apply_command_identity(
    working: Seq<u8>,
    staging: Seq<u8>,
    cmd: GpuCommand,
) -> (Seq<u8>, Seq<u8>) {
    match cmd {
        GpuCommand::CopyBufferToBuffer(src_offset, dst_offset, size) => (
            working,
            copy_region(working, staging, src_offset as int, dst_offset as int, size as int),
        ),
        _ => (working, staging),
    }
}

/// The two buffers' bytes after a sequence of commands executes in recorded
/// order, under an identity compute program.
pub open spec fn run_commands_identity(
    working: Seq<u8>,
    staging: Seq<u8>,
    cmds: Seq<GpuCommand>,
) -> (Seq<u8>, Seq<u8>)
    decreases cmds.len(),
{
    if cmds.len() == 0 {
        (working, staging)
    } else {
        let step = apply_command_identity(working, staging, cmds[0]);
        run_commands_identity(step.0, step.1, cmds.drop_first())
    }
}

/// Executing commands never changes either buffer's length.
pub proof fn lemma_run_preserves_len(working: Seq<u8>, staging: Seq<u8>, cmds: Seq<GpuCommand>)
    ensures
        run_commands_identity(working, staging, cmds).0.len() == working.len(),
        run_commands_identity(working, staging, cmds).1.len() == staging.len(),
    decreases cmds.len(),
{
    if cmds.len() > 0 {
        let step = apply_command_identity(working, staging, cmds[0]);
        lemma_run_preserves_len(step.0, step.1, cmds.drop_first());
    }
}

/// Appending one command to a sequence applies its effect after the rest.
pub proof fn lemma_run_commands_snoc(
    working: Seq<u8>,
    staging: Seq<u8>,
    cmds: Seq<GpuCommand>,
    cmd: GpuCommand,
)
    ensures
        run_commands_identity(working, staging, cmds + seq![cmd]) == apply_command_identity(
            run_commands_identity(working, staging, cmds).0,
            run_commands_identity(working, staging, cmds).1,
            cmd,
        ),
    decreases cmds.len(),
{
    let ext = cmds + seq![cmd];
    if cmds.len() == 0 {
        reveal_with_fuel(run_commands_identity, 2);
        assert(ext[0] == cmd);
        assert(ext.drop_first() =~= Seq::<GpuCommand>::empty());
    } else {
        assert(ext[0] == cmds[0]);
        assert(ext.drop_first() =~= cmds.drop_first() + seq![cmd]);
        let step = apply_command_identity(working, staging, cmds[0]);
        lemma_run_commands_snoc(step.0, step.1, cmds.drop_first(), cmd);
    }
}

/// The work queue executing a sealed command sequence against the two
/// buffers, under an identity compute program: commands run in recorded
/// order, each copy observing every write before it. Both buffers
/// must be device-visible, the working buffer a copy source and the staging
/// buffer a copy destination, and every recorded copy must stay in bounds.
pub fn execute_identity(
    sequence: &CommandSequence,
    working: &mut DeviceBuffer,
    staging: &mut DeviceBuffer,
)
    requires
        commands_ok(
            sequence.commands(),
            old(working).bytes().len(),
            old(staging).bytes().len(),
        ),
        old(working).state() == MapState::Unmapped,
        old(staging).state() == MapState::Unmapped,
        old(working).usage().copy_src,
        old(staging).usage().copy_dst,
    ensures
        final(working).bytes() == run_commands_identity(
            old(working).bytes(),
            old(staging).bytes(),
            sequence.commands(),
        ).0,
        final(staging).bytes() == run_commands_identity(
            old(working).bytes(),
            old(staging).bytes(),
            sequence.commands(),
        ).1,
        final(working).state() == MapState::Unmapped,
        final(staging).state() == MapState::Unmapped,
        final(working).usage() == old(working).usage(),
        final(staging).usage() == old(staging).usage(),
{
    let n = sequence.commands.len();
    let mut i: usize = 0;
    proof {
        assert(sequence.commands@.take(0) =~= Seq::<GpuCommand>::empty());
    }
    while i < n
        invariant
            i <= n,
            n == sequence.commands@.len(),
            commands_ok(sequence.commands(), old(working).bytes().len(), old(staging).bytes().len()),
            working.bytes() == run_commands_identity(
                old(working).bytes(),
                old(staging).bytes(),
                sequence.commands@.take(i as int),
            ).0,
            staging.bytes() == run_commands_identity(
                old(working).bytes(),
                old(staging).bytes(),
                sequence.commands@.take(i as int),
            ).1,
            working.state() == MapState::Unmapped,
            staging.state() == MapState::Unmapped,
            working.usage() == old(working).usage(),
            staging.usage() == old(staging).usage(),
            working.usage().copy_src,
            staging.usage().copy_dst,
        decreases n - i,
    {
        let ghost prefix = sequence.commands@.take(i as int);
        proof {
            lemma_run_preserves_len(old(working).bytes(), old(staging).bytes(), prefix);
            lemma_run_commands_snoc(
                old(working).bytes(),
                old(staging).bytes(),
                prefix,
                sequence.commands@[i as int],
            );
            assert(sequence.commands@.take(i + 1) =~= prefix + seq![sequence.commands@[i as int]]);
            assert(command_ok(
                sequence.commands@[i as int],
                old(working).bytes().len(),
                old(staging).bytes().len(),
            ));
        }
        let cmd = sequence.commands[i];
        match cmd {
            GpuCommand::CopyBufferToBuffer(src_offset, dst_offset, size) => {
                staging.copy_from(working, src_offset, dst_offset, size);
            },
            _ => {},
        }
        i = i + 1;
    }
    proof {
        assert(sequence.commands@.take(n as int) =~= sequence.commands@);
    }
}

} // verus!
