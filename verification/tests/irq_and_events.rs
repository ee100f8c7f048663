use sel4_platform::hal::irq::{dispatch_irq, register_handler, set_enable, IrqTable};
use sel4_platform::kit::ipc::ServiceEvent;
use sel4_platform::kit::irq::IrqCap;
use sel4_platform::platform::handler::{event_step, HandlerStep};
use sel4_platform::platform::irq::{disable_irqs, enable_irqs, handle_irq, irqs_enabled, IrqDispatch, IrqFlag};
use sel4_platform::runtime::sel4_handler::{runtime_event_step, RuntimeStep};

#[test]
fn irq_cap_register_ack_unregister() {
    let mut c = IrqCap::new(1);
    assert!(!c.irqs_enabled());
    c.init(77);
    assert!(c.irqs_enabled());
    assert_eq!(c.global_notify(), 77);
    assert_eq!(c.handler_index(5), 37);
    assert_eq!(c.ack_irq(5), None);
    c.register(5, 300, 301);
    assert_eq!(c.ack_irq(5), Some(300));
    assert_eq!(c.ack_irq(6), None);
    assert_eq!(c.unregister(5), Some((300, 301)));
    assert_eq!(c.ack_irq(5), None);
    assert_eq!(c.unregister(5), None);
}

#[test]
fn irq_cap_enable_disable() {
    let mut c = IrqCap::new(0);
    c.enable_irqs();
    assert!(c.irqs_enabled());
    c.disable_irqs();
    assert!(!c.irqs_enabled());
}

#[test]
fn irq_cap_reregistration_replaces_slots() {
    let mut c = IrqCap::new(0);
    c.register(3, 10, 11);
    c.register(3, 20, 21);
    assert_eq!(c.ack_irq(3), Some(20));
    assert_eq!(c.unregister(3), Some((20, 21)));
}

#[test]
fn handle_irq_runs_handler_only_when_enabled_but_always_acks() {
    let mut flag = IrqFlag::new();
    let mut c = IrqCap::new(0);
    c.register(9, 40, 41);
    assert!(!irqs_enabled(&flag));
    assert_eq!(handle_irq(&flag, &c, 9), IrqDispatch { run_handler: false, ack_slot: Some(40) });
    enable_irqs(&mut flag);
    assert!(irqs_enabled(&flag));
    assert_eq!(handle_irq(&flag, &c, 9), IrqDispatch { run_handler: true, ack_slot: Some(40) });
    assert_eq!(handle_irq(&flag, &c, 8), IrqDispatch { run_handler: true, ack_slot: None });
    disable_irqs(&mut flag);
    assert!(!irqs_enabled(&flag));
}

#[test]
fn platform_event_steps() {
    assert_eq!(event_step(true, None, 0x204, 3), HandlerStep::Stop);
    assert_eq!(event_step(true, None, 0, 3), HandlerStep::HandleIrq(3));
    assert_eq!(event_step(true, None, 9, 5), HandlerStep::HandleIrq(5));
    assert_eq!(event_step(false, None, 9, 5), HandlerStep::Ignore);
    assert_eq!(event_step(false, None, 0x204, 5), HandlerStep::Stop);
    assert_eq!(event_step(true, Some(ServiceEvent::ExitTask), 0x204, 5), HandlerStep::Serve(ServiceEvent::ExitTask));
    assert_eq!(event_step(false, Some(ServiceEvent::ExitTask), 7, 5), HandlerStep::Serve(ServiceEvent::ExitTask));
}

#[test]
fn runtime_event_steps() {
    assert_eq!(runtime_event_step(true, None, 0, 0), RuntimeStep::HandleIrq);
    assert_eq!(runtime_event_step(false, None, 0, 0), RuntimeStep::ReportFault { unknown_label: false });
    assert_eq!(runtime_event_step(true, None, 0x204, 1), RuntimeStep::Stop);
    assert_eq!(runtime_event_step(true, None, 0x300, 1), RuntimeStep::ReportFault { unknown_label: true });
    assert_eq!(runtime_event_step(true, None, 3, 1), RuntimeStep::ReportFault { unknown_label: false });
    assert_eq!(
        runtime_event_step(true, Some(ServiceEvent::CreateTask), 10, 0),
        RuntimeStep::CreateTask { local: true }
    );
    assert_eq!(
        runtime_event_step(true, Some(ServiceEvent::CreateTask), 10, 2),
        RuntimeStep::CreateTask { local: false }
    );
    assert_eq!(runtime_event_step(true, Some(ServiceEvent::ExitTask), 10, 1), RuntimeStep::ExitTask { local: false });
    assert_eq!(runtime_event_step(true, Some(ServiceEvent::MigrateTask), 10, 0), RuntimeStep::MigrateTask { local: true });
    assert_eq!(runtime_event_step(true, Some(ServiceEvent::SwitchTask), 10, 3), RuntimeStep::SwitchTask);
    assert_eq!(runtime_event_step(true, Some(ServiceEvent::ExitSystem), 10, 3), RuntimeStep::ExitSystem);
}

#[test]
fn hal_register_then_dispatch() {
    let mut t = IrqTable::new();
    assert!(!t.is_enabled(3));
    assert_eq!(dispatch_irq(&t, 3), None);
    assert!(register_handler(&mut t, 3, 0x1234));
    assert!(t.is_enabled(3));
    assert_eq!(dispatch_irq(&t, 3), Some(0x1234));
    // a second handler for the same IRQ is refused
    assert!(!register_handler(&mut t, 3, 0x5678));
    assert_eq!(dispatch_irq(&t, 3), Some(0x1234));
    // out of range
    assert!(!register_handler(&mut t, 256, 0x1234));
    assert_eq!(dispatch_irq(&t, 256), None);
    assert_eq!(dispatch_irq(&t, 4), None);
}

#[test]
fn hal_set_enable_touches_one_irq() {
    let mut t = IrqTable::new();
    set_enable(&mut t, 7, true);
    assert!(t.is_enabled(7));
    assert!(!t.is_enabled(6));
    set_enable(&mut t, 7, false);
    assert!(!t.is_enabled(7));
    set_enable(&mut t, 1000, true);
    assert!(!t.is_enabled(1000));
}

#[test]
fn irq_cap_index_bound() {
    let c = IrqCap::new(2);
    assert!(c.handler_index_fits(5));
    assert!(!c.handler_index_fits(usize::MAX));
    assert!(!IrqCap::new(usize::MAX).handler_index_fits(0));
}
