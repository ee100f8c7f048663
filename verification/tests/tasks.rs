use sel4_platform::error::Error;
use sel4_platform::kit::mem::MemCap;
use sel4_platform::kit::obj::{CNodePath, CapSet as KitCapSet};
use sel4_platform::platform::utils::obj::CapSet;
use sel4_platform::platform::utils::task::{
    cpus_except, create_sel4_task, exit_sel4_task, init_task_layout, initial_registers, migrate_sel4_task,
    migrate_task, migration_done, stack_layout, start_sel4_task, suspend_sel4_task, switch_sel4_task, InitTaskLayout,
    MigrationFixup, NormalTask, StartPlan, TaskManager, TaskRegisters,
};
use sel4_platform::runtime::mp::start_secondary_cpus;

fn capset(cnode_index: usize) -> CapSet {
    CapSet::new(cnode_index, 12, 900 + cnode_index as u64, 1 << 19, 0x100, 17)
}

#[test]
fn capset_new_takes_cnode_size() {
    let c = capset(3);
    assert_eq!(c.untyped_size(), (1 << 19) - (1 << 17));
    assert_eq!(c.root_cnode_path(), CNodePath { bits: 3, depth: 52 });
    assert_eq!(c.root_cnode(), (3 << 12) + 2);
    assert!(c.caps().is_empty());
}

#[test]
fn capset_allocation_two_phases() {
    let mut c = capset(2);
    assert_eq!(c.reserve_slot(12, Some(1)), Ok(1));
    assert_eq!(c.record_object(1, 12), (2 << 12) + 1);
    assert_eq!(c.reserve_slot(12, None), Ok(0x100));
    assert_eq!(c.record_object(0x100, 12), (2 << 12) + 0x100);
    assert_eq!(c.untyped_size(), (1 << 19) - (1 << 17) - 2 * (1 << 12));
    assert_eq!(c.caps(), vec![1, 0x100]);
    assert_eq!(c.check_available(1 << 20), Err(Error::NotEnoughMemory));
    assert_eq!(c.check_available(1 << 12), Ok(()));
    assert_eq!(c.reserve_slot(20, None), Err(Error::NotEnoughMemory));
}

#[test]
fn capset_runs_out_of_slots() {
    let mut c = CapSet::new(1, 1, 5, 1 << 20, 1, 6);
    assert_eq!(c.reserve_slot(4, None), Ok(1));
    assert_eq!(c.reserve_slot(4, None), Err(Error::NotEnoughMemory));
    assert_eq!(c.reserve_slot(4, Some(0)), Ok(0));
}

#[test]
fn capset_exit_and_migrate() {
    let mut c = capset(4);
    let i = c.reserve_slot(12, None).unwrap();
    c.record_object(i, 12);
    let mut pool = vec![1u64];
    assert_eq!(c.exit(&mut pool), vec![0x100]);
    assert_eq!(pool, vec![1, 904]);
    c.migrate(CNodePath { bits: 0x77, depth: 52 });
    assert_eq!(c.root_cnode_path(), CNodePath { bits: 0x77, depth: 52 });
    assert_eq!(c.root_cnode(), (0x77 << 12) + 2);
}

#[test]
fn kit_capset_slots() {
    let mut c = KitCapSet::new(5, 12, 66, 0x10);
    assert_eq!(c.slot_range(), ((5 << 12) + 0x10, 6 << 12));
    assert_eq!(c.untyped(), 66);
    assert_eq!(c.record_object(7), (5 << 12) + 7);
    assert_eq!(c.root_cnode(), (5 << 12) + 2);
    assert_eq!(c.drop(), vec![7]);
    assert!(c.slot_fits(7));
    assert!(!c.slot_fits(usize::MAX));
    c.migrate(CNodePath { bits: 9, depth: 52 });
    assert_eq!(c.root_cnode_path(), CNodePath { bits: 9, depth: 52 });
}

#[test]
fn stack_layout_reserves_tls() {
    assert_eq!(stack_layout(0x8000, 0), (0x7f00, 0x8000));
    assert_eq!(stack_layout(0x8000, 0x9000), (0x8000, 0x9000));
}

#[test]
fn init_task_layout_values() {
    assert_eq!(
        init_task_layout(0x10_0000, 2),
        InitTaskLayout {
            tid: 0xF002,
            cnode_slot: 0x92,
            tcb_slot: 0x82,
            sp: 0x0f_ff00,
            tls_base: 0x10_0000,
            priority: 255,
            cspace_guard_bits: 24,
        }
    );
    assert_eq!(initial_registers(0x400, 0x7f00, 0x5000, 1), TaskRegisters { pc: 0x400, sp: 0x7f00, x0: 1, x8: 0x5000 });
}

#[test]
fn cpus_except_and_boot_order() {
    assert_eq!(cpus_except(4, 2), vec![0, 1, 3]);
    assert_eq!(cpus_except(3, 0), vec![1, 2]);
    assert_eq!(cpus_except(2, 5), vec![0, 1]);
    assert_eq!(start_secondary_cpus(0, 4), vec![1, 2, 3]);
    assert_eq!(start_secondary_cpus(2, 4), vec![0, 1, 3]);
    assert_eq!(start_secondary_cpus(7, 4), vec![0, 1, 2]);
    assert_eq!(start_secondary_cpus(0, 1), Vec::<usize>::new());
}

fn new_task(m: &mut TaskManager, tid: usize, cpu: usize) -> usize {
    let cnode_index = m.reserve_cnode_index().unwrap();
    let t = NormalTask::new(tid, 0x1000, 0x8000, 0, cpu, cnode_index, capset(cnode_index), 900, 0x7000_0000);
    create_sel4_task(m, t)
}

#[test]
fn task_lifecycle() {
    let mut m = TaskManager::new();
    let mut mem = MemCap::new(0x7000_0000, 0x2000);
    assert_eq!(mem.reserve_ipc_buffer(), Ok(0x7000_0000));
    assert_eq!(new_task(&mut m, 7, 0), 7);
    // cnode index 1 -> tcb slot (1 << 12) + 1
    assert_eq!(suspend_sel4_task(&m, 7), Some(0x1001));
    assert_eq!(suspend_sel4_task(&m, 8), None);
    assert_eq!(start_sel4_task(&m, 7), Some(StartPlan { fixup: None, tcb_slot: 0x1001 }));

    migrate_sel4_task(&mut m, 7, 3);
    let moved = Some(StartPlan {
        fixup: Some(MigrationFixup { parent_ep_slot: (1 << 12) + 18, badge: 7, affinity: 3 }),
        tcb_slot: 0x1001,
    });
    assert_eq!(start_sel4_task(&m, 7), moved);
    // the migration stays pending until its fix-up is recorded as done
    assert_eq!(start_sel4_task(&m, 7), moved);
    migration_done(&mut m, 7);
    assert_eq!(start_sel4_task(&m, 7), Some(StartPlan { fixup: None, tcb_slot: 0x1001 }));

    // moving to the CPU it is on needs no fix-up
    migrate_sel4_task(&mut m, 7, 3);
    assert_eq!(start_sel4_task(&m, 7), Some(StartPlan { fixup: None, tcb_slot: 0x1001 }));

    let (caps, root_slot, cnode_index) = exit_sel4_task(&mut m, &mut mem, 7).unwrap();
    assert!(caps.is_empty());
    assert_eq!(root_slot, (1 << 12) + 2);
    assert_eq!(cnode_index, 1);
    assert_eq!(exit_sel4_task(&mut m, &mut mem, 99), None);
    // the IPC page and the CNode index come back
    assert_eq!(mem.reserve_ipc_buffer(), Ok(0x7000_1000));
    assert_eq!(mem.reserve_ipc_buffer(), Ok(0x7000_0000));
    assert_eq!(m.reserve_cnode_index(), Some(1));
    assert_eq!(m.alloc_untyped_unit(), (Some(901), 1 << 19));
}

#[test]
fn switch_suspends_prev_and_starts_next() {
    let mut m = TaskManager::new();
    new_task(&mut m, 1, 0);
    new_task(&mut m, 2, 0);
    assert_eq!(
        switch_sel4_task(&m, 1, 2),
        (Some(0x1001), Some(StartPlan { fixup: None, tcb_slot: 0x2001 }))
    );
    assert_eq!(switch_sel4_task(&m, 5, 6), (None, None));
}

#[test]
fn migrate_task_root_or_forward() {
    let mut m = TaskManager::new();
    new_task(&mut m, 1, 0);
    assert_eq!(migrate_task(&mut m, false, 1, 2), None);
    assert_eq!(start_sel4_task(&m, 1).unwrap().fixup, None);
    assert_eq!(migrate_task(&mut m, true, 1, 2), Some(0));
    assert_eq!(start_sel4_task(&m, 1).unwrap().fixup.unwrap().affinity, 2);
}

#[test]
fn normal_task_migrate_is_ok() {
    let mut t = NormalTask::new(3, 0x10, 0x9000, 0x20, 1, 5, capset(5), 1, 0);
    assert_eq!(t.stack, 0x9000);
    assert!(t.is_well_formed());
    assert_eq!(t.start(), StartPlan { fixup: None, tcb_slot: (5 << 12) + 1 });
    assert_eq!(t.migrate(1), Ok(()));
    assert!(!t.migrate);
    assert_eq!(t.migrate(2), Ok(()));
    assert!(t.migrate);
    assert_eq!(t.affinity, 2);
    assert!(t.start().fixup.is_some());
    assert!(t.migrate);
    t.finish_migration();
    assert!(!t.migrate);
    assert_eq!(t.start().fixup, None);
}

#[test]
fn task_well_formedness_check() {
    let t = NormalTask::new(3, 0x10, 0x9000, 0x20, 1, 1, capset(5), 1, 0);
    assert!(t.is_well_formed());
    let c = capset(2);
    assert!(c.is_well_formed());
    assert!(c.slot_fits(2));
    assert!(!c.slot_fits(usize::MAX));
}
