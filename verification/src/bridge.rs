//! The supervisor's view of the two forwarding tasks.
//!
//! The two directions run independently and share no mutable state;
//! any connect, subscribe, send or poll failure is fatal to its own
//! task only, and nothing ever restarts a task. This module records
//! that lifecycle: recording a fault in one direction provably leaves
//! the other direction's state untouched, and a stopped task stays
//! stopped.

use vstd::prelude::*;

verus! {

/// The failure that stopped a forwarding task.
#[derive(Clone, Copy, Debug, PartialEq, Eq)]
pub enum Fault {
    /// A broker was unreachable at connect time.
    Connect,
    /// The bus subscription could not be established.
    Subscribe,
    /// A relay send or publish failed.
    Send,
    /// A poll on the log broker failed.
    Poll,
}

/// The lifecycle of one forwarding task: it runs until its first
/// fault, which is fatal to it alone.
#[derive(Clone, Copy, Debug, PartialEq, Eq)]
pub enum TaskStatus {
    Running,
    Stopped(Fault),
}

/// What the supervisor knows of the bridge: one status per direction.
pub struct BridgeState {
    pub bus_to_log: TaskStatus,
    pub log_to_bus: TaskStatus,
}

impl BridgeState {
    /// Both tasks start running.
    pub fn new() -> (s: BridgeState)
        ensures
            s.bus_to_log is Running,
            s.log_to_bus is Running,
    {
        BridgeState { bus_to_log: TaskStatus::Running, log_to_bus: TaskStatus::Running }
    }

    /// Records a fatal fault in the bus-to-log direction. Fault
    /// isolation: the log-to-bus direction's state is untouched.
    pub fn fail_bus_to_log(&mut self, f: Fault)
        requires
            old(self).bus_to_log is Running,
        ensures
            final(self).bus_to_log == TaskStatus::Stopped(f),
            final(self).log_to_bus == old(self).log_to_bus,
    {
        self.bus_to_log = TaskStatus::Stopped(f);
    }

    /// Records a fatal fault in the log-to-bus direction. Fault
    /// isolation: the bus-to-log direction's state is untouched.
    pub fn fail_log_to_bus(&mut self, f: Fault)
        requires
            old(self).log_to_bus is Running,
        ensures
            final(self).log_to_bus == TaskStatus::Stopped(f),
            final(self).bus_to_log == old(self).bus_to_log,
    {
        self.log_to_bus = TaskStatus::Stopped(f);
    }

    /// Whether the bridge has reached its terminal state: both tasks
    /// have exited. The supervisor only joins; it never restarts.
    pub fn finished(&self) -> (b: bool)
        ensures
            b == (self.bus_to_log is Stopped && self.log_to_bus is Stopped),
    {
        match (&self.bus_to_log, &self.log_to_bus) {
            (TaskStatus::Stopped(_), TaskStatus::Stopped(_)) => true,
            _ => false,
        }
    }
}

} // verus!
