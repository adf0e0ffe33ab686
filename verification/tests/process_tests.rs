use rustixos::process::{
    block_current_process, create_process, get_current_process, schedule, terminate_process,
    unblock_process, Context, Process, ProcessId, ProcessManager, ProcessState,
};

#[test]
fn process_id_counter_advances_and_wraps() {
    let mut next = 5u64;
    assert_eq!(ProcessId::new(&mut next), ProcessId(5));
    assert_eq!(next, 6);
    let mut top = u64::MAX;
    assert_eq!(ProcessId::new(&mut top), ProcessId(u64::MAX));
    assert_eq!(top, 0);
}

#[test]
fn process_constructors() {
    let mut next = 7u64;
    let p = Process::new("shell".to_string(), 0x4000, &mut next);
    assert_eq!(p.id, ProcessId(7));
    assert_eq!(p.state, ProcessState::Ready);
    assert_eq!(p.instruction_pointer, 0x4000);
    assert_eq!(p.priority, 10);
    assert_eq!(next, 8);
    let k = Process::kernel_process("idle".to_string(), &mut next);
    assert_eq!(k.id, ProcessId(8));
    assert_eq!(k.state, ProcessState::Running);
    assert_eq!(k.priority, 0);
    assert_eq!(k.instruction_pointer, 0);
}

#[test]
fn new_manager_runs_idle() {
    let pm = ProcessManager::new();
    assert_eq!(pm.get_current_process(), Some(ProcessId(1)));
    let idle = pm.get_process(ProcessId(1)).unwrap();
    assert_eq!(idle.name, "idle");
    assert_eq!(idle.state, ProcessState::Running);
    assert_eq!(pm.get_scheduler_ticks(), 0);
    assert_eq!(pm.list_processes().len(), 1);
}

#[test]
fn create_then_get() {
    let mut pm = ProcessManager::new();
    let a = pm.create_process("a".to_string(), 0x1000);
    let b = pm.create_process("b".to_string(), 0x2000);
    assert_eq!(a, ProcessId(2));
    assert_eq!(b, ProcessId(3));
    let pa = pm.get_process(a).unwrap();
    assert_eq!(pa.state, ProcessState::Ready);
    assert_eq!(pa.instruction_pointer, 0x1000);
    let ids: Vec<u64> = pm.list_processes().iter().map(|p| p.id.0).collect();
    assert_eq!(ids, vec![1, 2, 3]);
    assert!(pm.get_process(ProcessId(99)).is_none());
}

#[test]
fn round_robin_schedule() {
    let mut pm = ProcessManager::new();
    let a = pm.create_process("a".to_string(), 0);
    let b = pm.create_process("b".to_string(), 0);
    // idle (running) goes to the back; a runs
    assert_eq!(pm.schedule(), Some(a));
    assert_eq!(pm.get_process(ProcessId(1)).unwrap().state, ProcessState::Ready);
    assert_eq!(pm.get_process(a).unwrap().state, ProcessState::Running);
    assert_eq!(pm.schedule(), Some(b));
    assert_eq!(pm.get_process(a).unwrap().state, ProcessState::Ready);
    assert_eq!(pm.schedule(), Some(ProcessId(1)));
    assert_eq!(pm.schedule(), Some(a));
    assert_eq!(pm.get_scheduler_ticks(), 4);
    assert_eq!(pm.get_current_process(), Some(a));
}

#[test]
fn schedule_with_empty_queue_runs_idle() {
    let mut pm = ProcessManager::new();
    // idle is running: it is requeued and picked again
    assert_eq!(pm.schedule(), Some(ProcessId(1)));
    assert_eq!(pm.get_process(ProcessId(1)).unwrap().state, ProcessState::Running);
}

#[test]
fn terminated_process_is_not_scheduled() {
    let mut pm = ProcessManager::new();
    let a = pm.create_process("a".to_string(), 0);
    let b = pm.create_process("b".to_string(), 0);
    assert_eq!(pm.terminate_process(a), Ok(()));
    assert_eq!(pm.get_process(a).unwrap().state, ProcessState::Terminated);
    assert_eq!(pm.schedule(), Some(b));
    assert_eq!(pm.schedule(), Some(ProcessId(1)));
    assert_eq!(pm.schedule(), Some(b));
    assert_eq!(pm.terminate_process(ProcessId(42)), Err("Process not found"));
}

#[test]
fn terminating_current_reschedules() {
    let mut pm = ProcessManager::new();
    let a = pm.create_process("a".to_string(), 0);
    assert_eq!(pm.schedule(), Some(a));
    assert_eq!(pm.terminate_process(a), Ok(()));
    // idle was queued behind a and now runs
    assert_eq!(pm.get_current_process(), Some(ProcessId(1)));
    assert_eq!(pm.get_process(a).unwrap().state, ProcessState::Terminated);
    assert_eq!(pm.get_scheduler_ticks(), 2);
}

#[test]
fn block_then_unblock() {
    let mut pm = ProcessManager::new();
    let a = pm.create_process("a".to_string(), 0);
    let b = pm.create_process("b".to_string(), 0);
    assert_eq!(pm.block_process(a), Ok(()));
    assert_eq!(pm.get_process(a).unwrap().state, ProcessState::Blocked);
    assert_eq!(pm.schedule(), Some(b));
    assert_eq!(pm.unblock_process(a), Ok(()));
    assert_eq!(pm.get_process(a).unwrap().state, ProcessState::Ready);
    // queue: idle, a
    assert_eq!(pm.schedule(), Some(ProcessId(1)));
    assert_eq!(pm.schedule(), Some(a));
    // unblocking a process that is not blocked changes nothing
    assert_eq!(pm.unblock_process(b), Ok(()));
    assert_eq!(pm.get_process(b).unwrap().state, ProcessState::Ready);
    assert_eq!(pm.unblock_process(ProcessId(77)), Err("Process not found"));
    assert_eq!(pm.block_process(ProcessId(77)), Err("Process not found"));
}

#[test]
fn get_process_mut_changes_in_place() {
    let mut pm = ProcessManager::new();
    let a = pm.create_process("a".to_string(), 0);
    pm.get_process_mut(a).unwrap().priority = 3;
    assert_eq!(pm.get_process(a).unwrap().priority, 3);
    assert!(pm.get_process_mut(ProcessId(50)).is_none());
}

#[test]
fn free_functions_on_a_manager() {
    let mut pm = ProcessManager::new();
    let a = create_process(&mut pm, "a".to_string(), 0x10);
    assert_eq!(schedule(&mut pm), Some(a));
    assert_eq!(get_current_process(&pm), Some(a));
    assert_eq!(block_current_process(&mut pm), Ok(()));
    assert_eq!(pm.get_process(a).unwrap().state, ProcessState::Blocked);
    assert_eq!(get_current_process(&pm), Some(ProcessId(1)));
    assert_eq!(unblock_process(&mut pm, a), Ok(()));
    assert_eq!(terminate_process(&mut pm, a), Ok(()));
    assert_eq!(pm.get_process(a).unwrap().state, ProcessState::Terminated);
}

#[test]
fn terminating_running_idle_falls_back_to_idle() {
    let mut pm = ProcessManager::new();
    // no ready process is left, and the idle fallback picks idle again
    assert_eq!(pm.terminate_process(ProcessId(1)), Ok(()));
    assert_eq!(pm.get_current_process(), Some(ProcessId(1)));
    assert_eq!(pm.get_process(ProcessId(1)).unwrap().state, ProcessState::Running);
}

#[test]
fn context_new_is_zero() {
    let c = Context::new();
    assert_eq!((c.rsp, c.r15, c.r14, c.r13, c.r12, c.rbx, c.rbp), (0, 0, 0, 0, 0, 0, 0));
}
