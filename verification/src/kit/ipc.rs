use vstd::prelude::*;

verus! {

/// The services the root task offers to the tasks it runs.
#[derive(Clone, Copy, Debug, PartialEq, Eq, Structural)]
pub enum ServiceEvent {
    SwitchTask,
    CreateTask,
    ExitTask,
    ExitSystem,
    MigrateTask,
}

/// The message label that asks the event loop to stop.
pub const STOP_LABEL: u64 = 0x204;

} // verus!
