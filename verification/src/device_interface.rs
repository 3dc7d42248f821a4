//! The execution context: one command queue, one fence, one command
//! allocator/list pair, and the resource factory.  The fence value grows
//! monotonically and every wait targets exactly `completed + 1`, so a
//! wait is a full CPU/GPU barrier and at most one command list is ever in
//! flight.

use vstd::prelude::*;
use crate::commands::{DispatchRaysDesc, GpuCommand};
use crate::resource::{ResourceFactory, ADDRESS_BASE};

verus! {

/// Whether the command list is open for recording.  The list is created
/// closed and must be reset before commands are recorded into it.
#[derive(Clone, Copy, Debug, PartialEq, Eq, Structural)]
pub enum ListState {
    Closed,
    Recording,
}

/// The process-wide execution context, passed by reference to every
/// component that needs GPU access.
pub struct DeviceInterface {
    /// Model of the fence's last completed value.
    pub fence_completed: u64,
    pub list_state: ListState,
    /// Commands recorded since the last reset and not yet submitted.
    pub commands: Vec<GpuCommand>,
    pub resource_factory: ResourceFactory,
    /// Everything ever submitted to the queue, in order.
    pub history: Ghost<Seq<GpuCommand>>,
}

impl DeviceInterface {
    pub open spec fn wf(self) -> bool {
        self.resource_factory.wf()
    }

    pub open spec fn recording(self) -> bool {
        self.list_state is Recording
    }

    /// Initializes the context: a device able to do hardware raytracing,
    /// a direct queue, a fence starting at zero, and a command list that
    /// starts out closed.
    pub fn create() -> (r: Self)
        ensures
            r.wf(),
            r.fence_completed == 0,
            !r.recording(),
            r.commands@ == Seq::<GpuCommand>::empty(),
            r.resource_factory.next_address == ADDRESS_BASE,
            r.resource_factory.created == 0,
            r.resource_factory.retired == 0,
            r.history@ == Seq::<GpuCommand>::empty(),
    {
        DeviceInterface {
            fence_completed: 0,
            list_state: ListState::Closed,
            commands: Vec::new(),
            resource_factory: ResourceFactory::new(),
            history: Ghost(Seq::empty()),
        }
    }

    /// The only synchronization primitive: signals the fence with
    /// `completed + 1` from the queue and blocks until that value is
    /// observed — a full CPU/GPU barrier.
    pub fn wait_for_gpu(&mut self)
        requires
            old(self).fence_completed < u64::MAX,
        ensures
            final(self).fence_completed == old(self).fence_completed + 1,
            final(self).list_state == old(self).list_state,
            final(self).commands@ == old(self).commands@,
            final(self).resource_factory == old(self).resource_factory,
            final(self).history == old(self).history,
    {
        self.fence_completed = self.fence_completed + 1;
    }

    /// Resets the command allocator and reopens the command list for a
    /// fresh recording; whatever was recorded before is discarded.
    pub fn reset_commands(&mut self)
        requires
            !old(self).recording(),
        ensures
            final(self).recording(),
            final(self).commands@ == Seq::<GpuCommand>::empty(),
            final(self).fence_completed == old(self).fence_completed,
            final(self).resource_factory == old(self).resource_factory,
            final(self).history == old(self).history,
    {
        self.commands = Vec::new();
        self.list_state = ListState::Recording;
    }

    /// Closes the command list and submits it to the queue.  The returned
    /// sequence is exactly the recorded work, in order, for the native
    /// front end to replay.
    pub fn close_and_execute(&mut self) -> (submitted: Vec<GpuCommand>)
        requires
            old(self).recording(),
        ensures
            !final(self).recording(),
            final(self).commands@ == Seq::<GpuCommand>::empty(),
            final(self).fence_completed == old(self).fence_completed,
            final(self).resource_factory == old(self).resource_factory,
            final(self).history@ == old(self).history@ + old(self).commands@,
            submitted@ == old(self).commands@,
    {
        let ghost submitted_now = self.commands@;
        self.history = Ghost(self.history@ + submitted_now);
        let mut submitted: Vec<GpuCommand> = Vec::new();
        core::mem::swap(&mut submitted, &mut self.commands);
        self.list_state = ListState::Closed;
        submitted
    }

    /// Appends one command to the open recording.
    pub(crate) fn record(&mut self, command: GpuCommand)
        requires
            old(self).recording(),
        ensures
            final(self).recording(),
            final(self).commands@ == old(self).commands@.push(command),
            final(self).fence_completed == old(self).fence_completed,
            final(self).resource_factory == old(self).resource_factory,
            final(self).history == old(self).history,
    {
        self.commands.push(command);
    }

    /// Records the raytracing dispatch itself.
    pub fn dispatch_rays(&mut self, desc: DispatchRaysDesc)
        requires
            old(self).recording(),
        ensures
            final(self).recording(),
            final(self).commands@ == old(self).commands@.push(
                GpuCommand::DispatchRays { rays: desc },
            ),
            final(self).fence_completed == old(self).fence_completed,
            final(self).resource_factory == old(self).resource_factory,
            final(self).history == old(self).history,
    {
        self.record(GpuCommand::DispatchRays { rays: desc });
    }
}

} // verus!
