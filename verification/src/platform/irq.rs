use vstd::prelude::*;

use crate::kit::irq::IrqCap;

verus! {

/// Number of IRQ lines the platform's handler table covers.
pub const MAX_IRQ_COUNT: usize = 1024;

/// Whether IRQ handlers run on this CPU (the per-CPU `IRQ_ENABLED` flag).
pub struct IrqFlag {
    enabled: bool,
}

impl View for IrqFlag {
    type V = bool;

    closed spec fn view(&self) -> bool {
        self.enabled
    }
}

impl IrqFlag {
    /// IRQ handlers start disabled.
    pub fn new() -> (r: Self)
        ensures
            r@ == false,
    {
        IrqFlag { enabled: false }
    }
}

/// Whether IRQ handlers run on this CPU.
pub fn irqs_enabled(flag: &IrqFlag) -> (r: bool)
    ensures
        r == flag@,
{
    flag.enabled
}

/// Lets IRQ handlers run.
pub fn enable_irqs(flag: &mut IrqFlag)
    ensures
        final(flag)@ == true,
{
    flag.enabled = true;
}

/// Stops IRQ handlers from running; IRQs are still acknowledged.
pub fn disable_irqs(flag: &mut IrqFlag)
    ensures
        final(flag)@ == false,
{
    flag.enabled = false;
}

/// What handling an IRQ notification with badge `badge` does: run the
/// registered trap handler (only while handlers are enabled), then
/// acknowledge the IRQ handler capability registered under the badge, if any.
#[derive(Clone, Copy, Debug, PartialEq, Eq, Structural)]
pub struct IrqDispatch {
    pub run_handler: bool,
    pub ack_slot: Option<usize>,
}

/// Decides how to handle the IRQ notification with badge `badge`.
pub fn handle_irq(flag: &IrqFlag, irq_cap: &IrqCap, badge: usize) -> (r: IrqDispatch)
    ensures
        r.run_handler == flag@,
        r.ack_slot == (if irq_cap@.handlers.contains_key(badge) { Some(irq_cap@.handlers[badge].0) } else { None }),
{
    let run_handler = irqs_enabled(flag);
    let ack_slot = irq_cap.ack_irq(badge);
    IrqDispatch { run_handler, ack_slot }
}

} // verus!
