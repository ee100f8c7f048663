use vstd::prelude::*;

use std::collections::BTreeMap;

use crate::kit::config::PPI_NUM;

verus! {

/// Abstract state of an [`IrqCap`].
pub struct IrqCapView {
    pub enable: bool,
    pub global_notify: u64,
    pub handlers: Map<usize, (usize, usize)>,
    pub cpu_id: usize,
}

/// The IRQ state of one CPU: whether IRQs are delivered, the notification
/// they are signalled on, and for each registered IRQ the slots of its IRQ
/// handler capability and of its badged notification.
pub struct IrqCap {
    enable: bool,
    global_notify: u64,
    irq_handlers: BTreeMap<usize, (usize, usize)>,
    cpu_id: usize,
}

impl View for IrqCap {
    type V = IrqCapView;

    closed spec fn view(&self) -> IrqCapView {
        IrqCapView {
            enable: self.enable,
            global_notify: self.global_notify,
            handlers: self.irq_handlers@,
            cpu_id: self.cpu_id,
        }
    }
}

impl IrqCap {
    /// IRQ state for CPU `cpu_id`: disabled, no notification, no handlers.
    pub fn new(cpu_id: usize) -> (r: Self)
        ensures
            r@ == (IrqCapView { enable: false, global_notify: 0, handlers: Map::empty(), cpu_id }),
    {
        IrqCap { enable: false, global_notify: 0, irq_handlers: BTreeMap::new(), cpu_id }
    }

    /// Records the notification `notify` that was created for this CPU's
    /// IRQs, and enables delivery. The notification is then bound to the
    /// CPU's thread.
    pub fn init(&mut self, notify: u64)
        ensures
            final(self)@ == (IrqCapView { enable: true, global_notify: notify, ..old(self)@ }),
    {
        self.global_notify = notify;
        self.enable = true;
    }

    pub fn enable_irqs(&mut self)
        ensures
            final(self)@ == (IrqCapView { enable: true, ..old(self)@ }),
    {
        self.enable = true;
    }

    pub fn disable_irqs(&mut self)
        ensures
            final(self)@ == (IrqCapView { enable: false, ..old(self)@ }),
    {
        self.enable = false;
    }

    pub fn irqs_enabled(&self) -> (r: bool)
        ensures
            r == self@.enable,
    {
        self.enable
    }

    /// The notification IRQs are signalled on.
    pub fn global_notify(&self) -> (r: u64)
        ensures
            r == self@.global_notify,
    {
        self.global_notify
    }

    /// Whether the system-wide number of `irq` of this CPU fits in a `usize`.
    pub fn handler_index_fits(&self, irq: usize) -> (r: bool)
        ensures
            r == (self@.cpu_id * PPI_NUM + irq <= usize::MAX),
    {
        match self.cpu_id.checked_mul(PPI_NUM) {
            Some(base) => base.checked_add(irq).is_some(),
            None => false,
        }
    }

    /// The system-wide number under which `irq` of this CPU is claimed.
    pub fn handler_index(&self, irq: usize) -> (r: usize)
        requires
            self@.cpu_id * PPI_NUM + irq <= usize::MAX,
        ensures
            r == self@.cpu_id * PPI_NUM + irq,
    {
        self.cpu_id * PPI_NUM + irq
    }

    /// Records `irq` as registered, with the slots of its IRQ handler and of
    /// its badged notification; a previous registration of `irq` is replaced.
    pub fn register(&mut self, irq: usize, irq_slot: usize, notify_slot: usize)
        ensures
            final(self)@ == (IrqCapView { handlers: old(self)@.handlers.insert(irq, (irq_slot, notify_slot)), ..old(self)@ }),
    {
        self.irq_handlers.insert(irq, (irq_slot, notify_slot));
    }

    /// Forgets the registration of `irq`, returning its slots (to be deleted
    /// and recycled), or `None` if it was not registered.
    pub fn unregister(&mut self, irq: usize) -> (r: Option<(usize, usize)>)
        ensures
            final(self)@ == (IrqCapView { handlers: old(self)@.handlers.remove(irq), ..old(self)@ }),
            r == (if old(self)@.handlers.contains_key(irq) { Some(old(self)@.handlers[irq]) } else { None }),
    {
        self.irq_handlers.remove(&irq)
    }

    /// The IRQ handler slot to acknowledge for `idx`, if `idx` is registered.
    pub fn ack_irq(&self, idx: usize) -> (r: Option<usize>)
        ensures
            r == (if self@.handlers.contains_key(idx) { Some(self@.handlers[idx].0) } else { None }),
    {
        match self.irq_handlers.get(&idx) {
            Some(handler) => Some(handler.0),
            None => None,
        }
    }
}

/// After `irq` is registered, acknowledging it reaches its handler slot.
pub proof fn lemma_register_then_ack(s: IrqCapView, irq: usize, irq_slot: usize, notify_slot: usize)
    ensures
        ({
            let h = s.handlers.insert(irq, (irq_slot, notify_slot));
            h.contains_key(irq) && h[irq].0 == irq_slot
        }),
{
}

/// After `irq` is unregistered, it is no longer acknowledged, and the other
/// registrations are untouched.
pub proof fn lemma_unregister_then_ack(s: IrqCapView, irq: usize, other: usize)
    requires
        other != irq,
    ensures
        !s.handlers.remove(irq).contains_key(irq),
        s.handlers.remove(irq).contains_key(other) == s.handlers.contains_key(other),
        s.handlers.contains_key(other) ==> s.handlers.remove(irq)[other] == s.handlers[other],
{
}

/// Unregistering a freshly registered IRQ hands back exactly the slots it
/// was registered with.
pub proof fn lemma_register_then_unregister(s: IrqCapView, irq: usize, irq_slot: usize, notify_slot: usize)
    ensures
        s.handlers.insert(irq, (irq_slot, notify_slot))[irq] == (irq_slot, notify_slot),
        s.handlers.insert(irq, (irq_slot, notify_slot)).remove(irq) == s.handlers.remove(irq),
{
    assert(s.handlers.insert(irq, (irq_slot, notify_slot)).remove(irq) =~= s.handlers.remove(irq));
}

} // verus!
