use vstd::prelude::*;

use crate::kit::ipc::{ServiceEvent, STOP_LABEL};

verus! {

/// The first label that is neither an IRQ nor a fault.
pub const FIRST_SERVICE_LABEL: u64 = 8;

/// What the runtime's event loop does with one received message.
#[derive(Clone, Copy, Debug, PartialEq, Eq, Structural)]
pub enum RuntimeStep {
    /// Leave the loop and power the system off.
    Stop,
    /// Handle the IRQ named by the badge.
    HandleIrq,
    /// Report the fault the message describes; `unknown_label` when the
    /// label is not a fault label either.
    ReportFault { unknown_label: bool },
    SwitchTask,
    /// Create a task: on CPU 0 as a local seL4 task, elsewhere by request.
    CreateTask { local: bool },
    /// Exit a task: on CPU 0 locally, elsewhere by request.
    ExitTask { local: bool },
    /// Reply, then leave the loop.
    ExitSystem,
    /// Migrate a task; only CPU 0 carries it out, others report an error.
    MigrateTask { local: bool },
}

/// Classifies a message on CPU `cpu_id` from its decoded service (`None` when
/// its label names no service) and its label; `irq` tells whether IRQ
/// support is built in.
pub fn runtime_event_step(irq: bool, event: Option<ServiceEvent>, label: u64, cpu_id: usize) -> (r: RuntimeStep)
    ensures
        r == if irq && label == 0 {
            RuntimeStep::HandleIrq
        } else {
            match event {
                None => if label >= FIRST_SERVICE_LABEL && label == STOP_LABEL {
                    RuntimeStep::Stop
                } else {
                    RuntimeStep::ReportFault { unknown_label: label >= FIRST_SERVICE_LABEL }
                },
                Some(ServiceEvent::SwitchTask) => RuntimeStep::SwitchTask,
                Some(ServiceEvent::CreateTask) => RuntimeStep::CreateTask { local: cpu_id == 0 },
                Some(ServiceEvent::ExitTask) => RuntimeStep::ExitTask { local: cpu_id == 0 },
                Some(ServiceEvent::ExitSystem) => RuntimeStep::ExitSystem,
                Some(ServiceEvent::MigrateTask) => RuntimeStep::MigrateTask { local: cpu_id == 0 },
            }
        },
{
    if irq && label == 0 {
        return RuntimeStep::HandleIrq;
    }
    match event {
        None => {
            if label >= FIRST_SERVICE_LABEL {
                if label == STOP_LABEL {
                    return RuntimeStep::Stop;
                }
            }
            RuntimeStep::ReportFault { unknown_label: label >= FIRST_SERVICE_LABEL }
        },
        Some(ServiceEvent::SwitchTask) => RuntimeStep::SwitchTask,
        Some(ServiceEvent::CreateTask) => RuntimeStep::CreateTask { local: cpu_id == 0 },
        Some(ServiceEvent::ExitTask) => RuntimeStep::ExitTask { local: cpu_id == 0 },
        Some(ServiceEvent::ExitSystem) => RuntimeStep::ExitSystem,
        Some(ServiceEvent::MigrateTask) => RuntimeStep::MigrateTask { local: cpu_id == 0 },
    }
}

} // verus!
