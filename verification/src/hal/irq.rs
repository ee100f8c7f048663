use vstd::prelude::*;

verus! {

/// The maximum number of IRQs.
pub const MAX_IRQ_COUNT: usize = 256;

/// The timer IRQ number.
pub const TIMER_IRQ_NUM: usize = 0;

/// Abstract state of an [`IrqTable`]: for each IRQ line, the address of its
/// handler (0 when none) and whether it is enabled.
pub struct IrqTableView {
    pub handlers: Seq<usize>,
    pub enabled: Seq<bool>,
}

/// The IRQ handler table and per-IRQ enable state of the platform. Handlers
/// are held by address; address 0 marks a free entry.
pub struct IrqTable {
    handlers: Vec<usize>,
    enabled: Vec<bool>,
}

impl View for IrqTable {
    type V = IrqTableView;

    closed spec fn view(&self) -> IrqTableView {
        IrqTableView { handlers: self.handlers@, enabled: self.enabled@ }
    }
}

/// What `register_handler(irq_num, handler)` does: an IRQ in range with no
/// handler yet gets `handler` and is enabled; any other request changes
/// nothing.
pub open spec fn register_step(s: IrqTableView, irq_num: usize, handler: usize) -> (IrqTableView, bool) {
    if irq_num < MAX_IRQ_COUNT && s.handlers[irq_num as int] == 0 {
        (
            IrqTableView {
                handlers: s.handlers.update(irq_num as int, handler),
                enabled: s.enabled.update(irq_num as int, true),
            },
            true,
        )
    } else {
        (s, false)
    }
}

/// The handler `dispatch_irq(irq_num)` runs, if any.
pub open spec fn dispatch_spec(s: IrqTableView, irq_num: usize) -> Option<usize> {
    if irq_num < MAX_IRQ_COUNT && s.handlers[irq_num as int] != 0 {
        Some(s.handlers[irq_num as int])
    } else {
        None
    }
}

impl IrqTable {
    pub open spec fn wf(&self) -> bool {
        &&& self@.handlers.len() == MAX_IRQ_COUNT
        &&& self@.enabled.len() == MAX_IRQ_COUNT
    }

    /// A table with no handler and every IRQ disabled.
    pub fn new() -> (r: Self)
        ensures
            r.wf(),
            forall|i: int| 0 <= i < MAX_IRQ_COUNT ==> r@.handlers[i] == 0 && !r@.enabled[i],
    {
        let mut handlers: Vec<usize> = Vec::new();
        let mut enabled: Vec<bool> = Vec::new();
        let mut i: usize = 0;
        while i < MAX_IRQ_COUNT
            invariant
                i <= MAX_IRQ_COUNT,
                handlers@.len() == i,
                enabled@.len() == i,
                forall|j: int| 0 <= j < i ==> handlers@[j] == 0 && !enabled@[j],
            decreases MAX_IRQ_COUNT - i,
        {
            handlers.push(0);
            enabled.push(false);
            i += 1;
        }
        IrqTable { handlers, enabled }
    }

    /// Whether IRQ `irq_num` is enabled.
    pub fn is_enabled(&self, irq_num: usize) -> (r: bool)
        requires
            self.wf(),
        ensures
            r == (irq_num < MAX_IRQ_COUNT && self@.enabled[irq_num as int]),
    {
        irq_num < MAX_IRQ_COUNT && self.enabled[irq_num]
    }
}

/// Enables or disables the given IRQ; numbers out of range are ignored.
pub fn set_enable(table: &mut IrqTable, irq_num: usize, enabled: bool)
    requires
        old(table).wf(),
    ensures
        final(table).wf(),
        final(table)@.handlers == old(table)@.handlers,
        final(table)@.enabled == (if irq_num < MAX_IRQ_COUNT {
            old(table)@.enabled.update(irq_num as int, enabled)
        } else {
            old(table)@.enabled
        }),
{
    if irq_num < MAX_IRQ_COUNT {
        table.enabled.set(irq_num, enabled);
    }
}

/// Registers the handler at address `handler` for the given IRQ and enables
/// the IRQ. Fails, changing nothing, when the IRQ is out of range or already
/// has a handler.
pub fn register_handler(table: &mut IrqTable, irq_num: usize, handler: usize) -> (r: bool)
    requires
        old(table).wf(),
        handler != 0,
    ensures
        final(table).wf(),
        (final(table)@, r) == register_step(old(table)@, irq_num, handler),
{
    if irq_num < MAX_IRQ_COUNT && table.handlers[irq_num] == 0 {
        table.handlers.set(irq_num, handler);
        table.enabled.set(irq_num, true);
        true
    } else {
        false
    }
}

/// Dispatches the IRQ: looks up its handler in the table and returns the
/// address of the handler to call, or `None` when none is registered.
pub fn dispatch_irq(table: &IrqTable, irq_num: usize) -> (r: Option<usize>)
    requires
        table.wf(),
    ensures
        r == dispatch_spec(table@, irq_num),
{
    if irq_num < MAX_IRQ_COUNT && table.handlers[irq_num] != 0 {
        Some(table.handlers[irq_num])
    } else {
        None
    }
}

/// A handler registered for a free IRQ is the one a later dispatch of that
/// IRQ runs, and the IRQ is enabled.
pub proof fn lemma_register_then_dispatch(s: IrqTableView, irq_num: usize, handler: usize)
    requires
        s.handlers.len() == MAX_IRQ_COUNT,
        s.enabled.len() == MAX_IRQ_COUNT,
        irq_num < MAX_IRQ_COUNT,
        s.handlers[irq_num as int] == 0,
        handler != 0,
    ensures
        register_step(s, irq_num, handler).1,
        dispatch_spec(register_step(s, irq_num, handler).0, irq_num) == Some(handler),
        register_step(s, irq_num, handler).0.enabled[irq_num as int],
{
}

/// A second registration for the same IRQ fails and keeps the first handler.
pub proof fn lemma_register_occupied_fails(s: IrqTableView, irq_num: usize, first: usize, second: usize)
    requires
        s.handlers.len() == MAX_IRQ_COUNT,
        s.enabled.len() == MAX_IRQ_COUNT,
        irq_num < MAX_IRQ_COUNT,
        s.handlers[irq_num as int] == 0,
        first != 0,
    ensures
        ({
            let (s1, _) = register_step(s, irq_num, first);
            let (s2, ok) = register_step(s1, irq_num, second);
            !ok && s2 == s1 && dispatch_spec(s2, irq_num) == Some(first)
        }),
{
}

/// An IRQ that has a handler refuses every further registration, whether it
/// is enabled or not, and keeps its handler; an IRQ in range without one
/// accepts any handler. Registration succeeds exactly then.
pub proof fn lemma_register_only_free_irqs(s: IrqTableView, irq_num: usize, handler: usize)
    requires
        s.handlers.len() == MAX_IRQ_COUNT,
        s.enabled.len() == MAX_IRQ_COUNT,
    ensures
        register_step(s, irq_num, handler).1 <==> (irq_num < MAX_IRQ_COUNT && dispatch_spec(s, irq_num) is None),
        dispatch_spec(s, irq_num) matches Some(h) ==> register_step(s, irq_num, handler) == (s, false)
            && dispatch_spec(register_step(s, irq_num, handler).0, irq_num) == Some(h),
        register_step(s, irq_num, handler).1 ==> dispatch_spec(register_step(s, irq_num, handler).0, irq_num)
            == (if handler == 0 { None } else { Some(handler) }),
{
}

/// Registering a handler for one IRQ leaves every other IRQ's handler and
/// enable state as it was.
pub proof fn lemma_register_leaves_others(s: IrqTableView, irq_num: usize, handler: usize, other: usize)
    requires
        s.handlers.len() == MAX_IRQ_COUNT,
        s.enabled.len() == MAX_IRQ_COUNT,
        other != irq_num,
        other < MAX_IRQ_COUNT,
    ensures
        register_step(s, irq_num, handler).0.handlers[other as int] == s.handlers[other as int],
        register_step(s, irq_num, handler).0.enabled[other as int] == s.enabled[other as int],
{
}

} // verus!
