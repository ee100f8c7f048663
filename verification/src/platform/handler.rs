use vstd::prelude::*;

use crate::kit::ipc::{ServiceEvent, STOP_LABEL};

verus! {

/// What the platform's event loop does with one received message.
#[derive(Clone, Copy, Debug, PartialEq, Eq, Structural)]
pub enum HandlerStep {
    /// Leave the loop and shut the system down.
    Stop,
    /// The message is an IRQ notification: handle the IRQ with this badge.
    HandleIrq(usize),
    /// Drop the message: it would be an IRQ notification, but IRQ support
    /// is not built in.
    Ignore,
    /// Serve the request.
    Serve(ServiceEvent),
}

/// Classifies a message from its decoded service (`None` when its label
/// names no service), its label and its badge; `irq` tells whether IRQ
/// support is built in.
pub fn event_step(irq: bool, event: Option<ServiceEvent>, label: u64, badge: u64) -> (r: HandlerStep)
    ensures
        r == match event {
            Some(e) => HandlerStep::Serve(e),
            None => if label == STOP_LABEL {
                HandlerStep::Stop
            } else if irq {
                HandlerStep::HandleIrq(badge as usize)
            } else {
                HandlerStep::Ignore
            },
        },
{
    match event {
        Some(e) => HandlerStep::Serve(e),
        None => {
            if label == STOP_LABEL {
                HandlerStep::Stop
            } else if irq {
                HandlerStep::HandleIrq(badge as usize)
            } else {
                HandlerStep::Ignore
            }
        },
    }
}

} // verus!
