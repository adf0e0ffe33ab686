//! Processes, the process table and the round-robin scheduler.

use vstd::prelude::*;
use crate::textutil::str_eq;
use std::collections::VecDeque;

verus! {

/// A process id.
#[derive(Debug, Clone, Copy, PartialEq, Eq, Structural, PartialOrd, Ord)]
pub struct ProcessId(pub u64);

/// The counter after handing out `n`: one more, wrapping at the top.
pub open spec fn next_counter(n: u64) -> u64 {
    if n == u64::MAX {
        0
    } else {
        (n + 1) as u64
    }
}

impl ProcessId {
    /// Takes the next id from the counter `next`, which moves on by one.
    pub fn new(next: &mut u64) -> (ret: Self)
        ensures
            ret.0 == *old(next),
            *final(next) == next_counter(*old(next)),
    {
        let id = *next;
        *next = if id == u64::MAX {
            0
        } else {
            id + 1
        };
        ProcessId(id)
    }
}

/// Where a process is in its life.
#[derive(Debug, Clone, Copy, PartialEq, Eq, Structural)]
pub enum ProcessState {
    Ready,
    Running,
    Blocked,
    Terminated,
}

/// A process.
#[derive(Debug)]
pub struct Process {
    pub id: ProcessId,
    pub name: String,
    pub state: ProcessState,
    pub stack_pointer: u64,
    pub instruction_pointer: u64,
    pub page_table: Option<u64>,
    pub parent_id: Option<ProcessId>,
    pub children: Vec<ProcessId>,
    pub priority: u8,
    pub cpu_time: u64,
}

/// `p` in state `s`, all else kept.
pub open spec fn with_state(p: Process, s: ProcessState) -> Process {
    Process { state: s, ..p }
}

/// A fresh user process: ready, at priority 10, starting at `entry`.
pub open spec fn user_process(id: u64, name: Seq<char>, entry: u64, p: Process) -> bool {
    &&& p.id.0 == id
    &&& p.name@ == name
    &&& p.state == ProcessState::Ready
    &&& p.stack_pointer == 0
    &&& p.instruction_pointer == entry
    &&& p.page_table is None
    &&& p.parent_id is None
    &&& p.children@.len() == 0
    &&& p.priority == 10
    &&& p.cpu_time == 0
}

/// A fresh kernel process: running, at priority 0, starting at 0.
pub open spec fn kernel_process_spec(id: u64, name: Seq<char>, p: Process) -> bool {
    &&& p.id.0 == id
    &&& p.name@ == name
    &&& p.state == ProcessState::Running
    &&& p.stack_pointer == 0
    &&& p.instruction_pointer == 0
    &&& p.page_table is None
    &&& p.parent_id is None
    &&& p.children@.len() == 0
    &&& p.priority == 0
    &&& p.cpu_time == 0
}

impl Process {
    /// A ready user process starting at `entry_point`, with the next id
    /// of the counter `next_pid`.
    pub fn new(name: String, entry_point: u64, next_pid: &mut u64) -> (ret: Self)
        ensures
            user_process(*old(next_pid), name@, entry_point, ret),
            *final(next_pid) == next_counter(*old(next_pid)),
    {
        Process {
            id: ProcessId::new(next_pid),
            name,
            state: ProcessState::Ready,
            stack_pointer: 0,
            instruction_pointer: entry_point,
            page_table: None,
            parent_id: None,
            children: Vec::new(),
            priority: 10,
            cpu_time: 0,
        }
    }

    /// A running kernel process, with the next id of the counter
    /// `next_pid`.
    pub fn kernel_process(name: String, next_pid: &mut u64) -> (ret: Self)
        ensures
            kernel_process_spec(*old(next_pid), name@, ret),
            *final(next_pid) == next_counter(*old(next_pid)),
    {
        Process {
            id: ProcessId::new(next_pid),
            name,
            state: ProcessState::Running,
            stack_pointer: 0,
            instruction_pointer: 0,
            page_table: None,
            parent_id: None,
            children: Vec::new(),
            priority: 0,
            cpu_time: 0,
        }
    }
}

/// The processes are in strictly increasing order of id.
pub open spec fn sorted_ids(ps: Seq<Process>) -> bool {
    forall|i: int, j: int| 0 <= i < j < ps.len() ==> (#[trigger] ps[i]).id.0 < (#[trigger] ps[j]).id.0
}

/// Some process has id `pid`.
pub open spec fn has_pid(ps: Seq<Process>, pid: u64) -> bool {
    exists|i: int| 0 <= i < ps.len() && (#[trigger] ps[i]).id.0 == pid
}

/// The position of the process with id `pid`.
pub open spec fn pid_index(ps: Seq<Process>, pid: u64) -> int {
    choose|i: int| 0 <= i < ps.len() && (#[trigger] ps[i]).id.0 == pid
}

/// The processes by id.
pub open spec fn proc_map(ps: Seq<Process>) -> Map<u64, Process> {
    Map::new(|k: u64| has_pid(ps, k), |k: u64| ps[pid_index(ps, k)])
}

/// In an ordered table, position `i` holds the process that the id at
/// `i` maps to.
pub proof fn lemma_proc_at(ps: Seq<Process>, i: int)
    requires
        sorted_ids(ps),
        0 <= i < ps.len(),
    ensures
        has_pid(ps, ps[i].id.0),
        pid_index(ps, ps[i].id.0) == i,
        proc_map(ps).contains_key(ps[i].id.0),
        proc_map(ps)[ps[i].id.0] == ps[i],
{
    let k = ps[i].id.0;
    assert(has_pid(ps, k));
    let j = pid_index(ps, k);
    if j < i {
        assert(ps[j].id.0 < ps[i].id.0);
    } else if j > i {
        assert(ps[i].id.0 < ps[j].id.0);
    }
}

/// Replacing the process at `i` by one with the same id replaces it in
/// the table and keeps the order.
pub proof fn lemma_proc_update(ps: Seq<Process>, i: int, p: Process)
    requires
        sorted_ids(ps),
        0 <= i < ps.len(),
        p.id == ps[i].id,
    ensures
        sorted_ids(ps.update(i, p)),
        proc_map(ps.update(i, p)) == proc_map(ps).insert(p.id.0, p),
{
    let qs = ps.update(i, p);
    assert(sorted_ids(qs)) by {
        assert forall|a: int, b: int| 0 <= a < b < qs.len() implies (#[trigger] qs[a]).id.0 < (
        #[trigger] qs[b]).id.0 by {
            assert(ps[a].id.0 < ps[b].id.0);
        }
    }
    assert forall|k: u64| has_pid(qs, k) <==> (has_pid(ps, k) || k == p.id.0) by {
        if has_pid(qs, k) {
            let j = choose|j: int| 0 <= j < qs.len() && (#[trigger] qs[j]).id.0 == k;
            assert(ps[j].id.0 == k);
        }
        if has_pid(ps, k) {
            let j = choose|j: int| 0 <= j < ps.len() && (#[trigger] ps[j]).id.0 == k;
            assert(qs[j].id.0 == k);
        }
        if k == p.id.0 {
            assert(qs[i].id.0 == k);
        }
    }
    assert forall|k: u64| #[trigger] proc_map(qs).contains_key(k) implies proc_map(qs)[k] == proc_map(
        ps,
    ).insert(p.id.0, p)[k] by {
        let j = choose|j: int| 0 <= j < qs.len() && (#[trigger] qs[j]).id.0 == k;
        lemma_proc_at(qs, j);
        lemma_proc_at(ps, j);
    }
    assert(proc_map(qs) =~= proc_map(ps).insert(p.id.0, p));
}

/// Putting a process at position `k`, between the smaller and the larger
/// ids, adds it to the table and keeps the order.
pub proof fn lemma_proc_insert(ps: Seq<Process>, k: int, p: Process)
    requires
        sorted_ids(ps),
        0 <= k <= ps.len(),
        forall|j: int| 0 <= j < k ==> (#[trigger] ps[j]).id.0 < p.id.0,
        k < ps.len() ==> p.id.0 < ps[k].id.0,
    ensures
        sorted_ids(ps.insert(k, p)),
        proc_map(ps.insert(k, p)) == proc_map(ps).insert(p.id.0, p),
{
    let qs = ps.insert(k, p);
    assert(sorted_ids(qs)) by {
        assert forall|a: int, b: int| 0 <= a < b < qs.len() implies (#[trigger] qs[a]).id.0 < (
        #[trigger] qs[b]).id.0 by {
            if b < k {
            } else if a < k && b == k {
            } else if a < k {
                assert(ps[a].id.0 < ps[b - 1].id.0);
            } else if a == k {
                if b - 1 > k {
                    assert(ps[k].id.0 < ps[b - 1].id.0);
                }
            } else {
                assert(ps[a - 1].id.0 < ps[b - 1].id.0);
            }
        }
    }
    assert forall|key: u64| has_pid(qs, key) <==> (has_pid(ps, key) || key == p.id.0) by {
        if has_pid(qs, key) {
            let j = choose|j: int| 0 <= j < qs.len() && (#[trigger] qs[j]).id.0 == key;
            if j < k {
                assert(ps[j].id.0 == key);
            } else if j > k {
                assert(ps[j - 1].id.0 == key);
            }
        }
        if has_pid(ps, key) {
            let j = choose|j: int| 0 <= j < ps.len() && (#[trigger] ps[j]).id.0 == key;
            if j < k {
                assert(qs[j].id.0 == key);
            } else {
                assert(qs[j + 1].id.0 == key);
            }
        }
        if key == p.id.0 {
            assert(qs[k].id.0 == key);
        }
    }
    assert forall|key: u64| #[trigger] proc_map(qs).contains_key(key) implies proc_map(qs)[key]
        == proc_map(ps).insert(p.id.0, p)[key] by {
        let j = choose|j: int| 0 <= j < qs.len() && (#[trigger] qs[j]).id.0 == key;
        lemma_proc_at(qs, j);
        if j < k {
            lemma_proc_at(ps, j);
        } else if j > k {
            lemma_proc_at(ps, j - 1);
        }
    }
    assert(proc_map(qs) =~= proc_map(ps).insert(p.id.0, p));
}

/// The first process called "idle", in order of id, is the one with the
/// smallest id.
pub proof fn lemma_idle_first(ps: Seq<Process>, i: int)
    requires
        sorted_ids(ps),
        0 <= i < ps.len(),
        ps[i].name@ == "idle"@,
        forall|a: int| 0 <= a < i ==> (#[trigger] ps[a]).name@ != "idle"@,
    ensures
        has_idle(proc_map(ps)),
        idle_pid(proc_map(ps)) == ps[i].id.0,
{
    reveal(has_idle);
    reveal(idle_pid);
    let t = proc_map(ps);
    let k = ps[i].id.0;
    lemma_proc_at(ps, i);
    assert(is_idle(t, k));
    assert forall|k2: u64| is_idle(t, k2) implies k <= k2 by {
        let b = choose|b: int| 0 <= b < ps.len() && (#[trigger] ps[b]).id.0 == k2;
        lemma_proc_at(ps, b);
        if b < i {
            assert(ps[b].name@ != "idle"@);
        } else if b > i {
            assert(ps[i].id.0 < ps[b].id.0);
        }
    }
    let m = idle_pid(t);
    assert(is_idle(t, m) && forall|k2: u64| is_idle(t, k2) ==> m <= k2);
    assert(m <= k && k <= m);
}

/// With no process called "idle", the table has none.
pub proof fn lemma_no_idle(ps: Seq<Process>)
    requires
        sorted_ids(ps),
        forall|a: int| 0 <= a < ps.len() ==> (#[trigger] ps[a]).name@ != "idle"@,
    ensures
        !has_idle(proc_map(ps)),
{
    reveal(has_idle);
    let t = proc_map(ps);
    if has_idle(t) {
        let k = choose|k: u64| is_idle(t, k);
        let b = choose|b: int| 0 <= b < ps.len() && (#[trigger] ps[b]).id.0 == k;
        lemma_proc_at(ps, b);
        assert(ps[b].name@ != "idle"@);
    }
}

/// What the scheduler sees: the processes by id, the ready queue from
/// front to back, the current process and the tick count.
pub struct SchedState {
    pub table: Map<u64, Process>,
    pub queue: Seq<ProcessId>,
    pub current: Option<ProcessId>,
    pub ticks: int,
}

/// The running current process goes back to ready, at the end of the
/// queue.
pub open spec fn requeue(s: SchedState) -> SchedState {
    match s.current {
        Some(c) => if s.table.contains_key(c.0) && s.table[c.0].state == ProcessState::Running {
            SchedState {
                table: s.table.insert(c.0, with_state(s.table[c.0], ProcessState::Ready)),
                queue: s.queue.push(c),
                ..s
            }
        } else {
            s
        },
        None => s,
    }
}

/// `pid` names a ready process.
pub open spec fn is_ready(t: Map<u64, Process>, pid: ProcessId) -> bool {
    t.contains_key(pid.0) && t[pid.0].state == ProcessState::Ready
}

/// The first position from `i` on whose process is ready, or the length.
pub open spec fn first_ready(t: Map<u64, Process>, q: Seq<ProcessId>, i: int) -> int
    decreases q.len() - i,
{
    if i >= q.len() {
        q.len() as int
    } else if is_ready(t, q[i]) {
        i
    } else {
        first_ready(t, q, i + 1)
    }
}

/// The process `k` is called "idle".
pub open spec fn is_idle(t: Map<u64, Process>, k: u64) -> bool {
    t.contains_key(k) && t[k].name@ == "idle"@
}

/// Some process is called "idle".
#[verifier::opaque]
pub open spec fn has_idle(t: Map<u64, Process>) -> bool {
    exists|k: u64| is_idle(t, k)
}

/// The smallest id of a process called "idle".
#[verifier::opaque]
pub open spec fn idle_pid(t: Map<u64, Process>) -> u64 {
    choose|k: u64| is_idle(t, k) && forall|k2: u64| is_idle(t, k2) ==> k <= k2
}

/// One round of the scheduler: the running process goes to the back of
/// the queue, ready-queue entries are taken from the front until one is
/// ready, which runs; with none, the idle process runs.
pub open spec fn schedule_spec(s: SchedState) -> (SchedState, Option<ProcessId>) {
    pick_spec(SchedState { ticks: s.ticks + 1, ..requeue(s) })
}

/// Taking the next process to run: ready-queue entries are taken from the
/// front until one is ready, which runs; with none, the idle process runs.
pub open spec fn pick_spec(r: SchedState) -> (SchedState, Option<ProcessId>) {
    let f = first_ready(r.table, r.queue, 0);
    if f < r.queue.len() {
        let p = r.queue[f];
        (
            SchedState {
                table: r.table.insert(p.0, with_state(r.table[p.0], ProcessState::Running)),
                queue: r.queue.subrange(f + 1, r.queue.len() as int),
                current: Some(p),
                ticks: r.ticks,
            },
            Some(p),
        )
    } else {
        idle_spec(r)
    }
}

/// With no ready process in the queue: the queue empties, and the idle
/// process, when there is one, runs.
pub open spec fn idle_spec(r: SchedState) -> (SchedState, Option<ProcessId>) {
    if has_idle(r.table) {
        let k = idle_pid(r.table);
        (
            SchedState {
                table: r.table.insert(k, with_state(r.table[k], ProcessState::Running)),
                queue: Seq::empty(),
                current: Some(ProcessId(k)),
                ticks: r.ticks,
            },
            Some(ProcessId(k)),
        )
    } else {
        (SchedState { queue: Seq::empty(), ..r }, None)
    }
}

/// Keeps the entries other than `pid`.
pub open spec fn not_pid(pid: ProcessId) -> spec_fn(ProcessId) -> bool {
    |p: ProcessId| p != pid
}

/// Putting `pid` into the state `st` (blocked or terminated): it leaves the
/// ready queue, and when it was current, the scheduler runs.
pub open spec fn stop_spec(s: SchedState, pid: ProcessId, st: ProcessState) -> (
    SchedState,
    Result<(), Seq<char>>,
) {
    if !s.table.contains_key(pid.0) {
        (s, Err("Process not found"@))
    } else {
        let s1 = SchedState {
            table: s.table.insert(pid.0, with_state(s.table[pid.0], st)),
            queue: s.queue.filter(not_pid(pid)),
            ..s
        };
        if s.current == Some(pid) {
            (schedule_spec(SchedState { current: None, ..s1 }).0, Ok(()))
        } else {
            (s1, Ok(()))
        }
    }
}

/// Making a blocked `pid` ready again, at the back of the queue.
pub open spec fn unblock_spec(s: SchedState, pid: ProcessId) -> (SchedState, Result<(), Seq<char>>) {
    if !s.table.contains_key(pid.0) {
        (s, Err("Process not found"@))
    } else if s.table[pid.0].state == ProcessState::Blocked {
        (
            SchedState {
                table: s.table.insert(pid.0, with_state(s.table[pid.0], ProcessState::Ready)),
                queue: s.queue.push(pid),
                ..s
            },
            Ok(()),
        )
    } else {
        (s, Ok(()))
    }
}

/// The process table, the ready queue and the scheduler.
pub struct ProcessManager {
    processes: Vec<Process>,
    ready_queue: VecDeque<ProcessId>,
    current_process: Option<ProcessId>,
    scheduler_ticks: u64,
    next_pid: u64,
}

impl View for ProcessManager {
    type V = SchedState;

    closed spec fn view(&self) -> SchedState {
        SchedState {
            table: proc_map(self.processes@),
            queue: self.ready_queue@,
            current: self.current_process,
            ticks: self.scheduler_ticks as int,
        }
    }
}

impl ProcessManager {
    /// The processes in order of id.
    pub closed spec fn procs(&self) -> Seq<Process> {
        self.processes@
    }

    /// The id the next new process gets.
    pub closed spec fn next_pid(&self) -> u64 {
        self.next_pid
    }

    /// The processes are in strictly increasing order of id.
    pub closed spec fn wf(&self) -> bool {
        sorted_ids(self.processes@)
    }

    /// The table is the processes by id, which are in order.
    pub proof fn lemma_view(&self)
        requires
            self.wf(),
        ensures
            sorted_ids(self.procs()),
            self@.table == proc_map(self.procs()),
    {
    }

    /// Where the process `pid` is, or would go.
    fn find(&self, pid: u64) -> (ret: (usize, bool))
        requires
            self.wf(),
        ensures
            ret.0 <= self.processes.len(),
            forall|j: int| 0 <= j < ret.0 ==> (#[trigger] self.processes@[j]).id.0 < pid,
            ret.0 < self.processes.len() ==> pid <= self.processes@[ret.0 as int].id.0,
            ret.1 == (ret.0 < self.processes.len() && self.processes@[ret.0 as int].id.0 == pid),
            ret.1 == has_pid(self.processes@, pid),
            ret.1 == self@.table.contains_key(pid),
            ret.1 ==> self@.table[pid] == self.processes@[ret.0 as int],
    {
        let mut k: usize = 0;
        while k < self.processes.len() && self.processes[k].id.0 < pid
            invariant
                self.wf(),
                k <= self.processes.len(),
                forall|j: int| 0 <= j < k ==> (#[trigger] self.processes@[j]).id.0 < pid,
            decreases self.processes.len() - k,
        {
            k = k + 1;
        }
        let found = k < self.processes.len() && self.processes[k].id.0 == pid;
        proof {
            let ps = self.processes@;
            if has_pid(ps, pid) {
                let i = choose|i: int| 0 <= i < ps.len() && (#[trigger] ps[i]).id.0 == pid;
                if i > k {
                    assert(ps[k as int].id.0 < ps[i].id.0);
                }
            }
            if found {
                lemma_proc_at(ps, k as int);
            }
        }
        (k, found)
    }

    /// Puts `p` in the table, replacing a process with its id.
    fn insert_process(&mut self, p: Process)
        requires
            old(self).wf(),
        ensures
            final(self).wf(),
            final(self)@ == (SchedState { table: old(self)@.table.insert(p.id.0, p), ..old(self)@ }),
            final(self).next_pid == old(self).next_pid,
    {
        let (k, found) = self.find(p.id.0);
        let ghost ps = self.processes@;
        if found {
            proof {
                lemma_proc_update(ps, k as int, p);
            }
            self.processes.set(k, p);
        } else {
            proof {
                lemma_proc_insert(ps, k as int, p);
            }
            self.processes.insert(k, p);
        }
    }

    /// Sets the state of the process at position `k`.
    fn set_state_at(&mut self, k: usize, st: ProcessState)
        requires
            old(self).wf(),
            k < old(self).processes.len(),
        ensures
            final(self).wf(),
            final(self).processes@ == old(self).processes@.update(
                k as int,
                with_state(old(self).processes@[k as int], st),
            ),
            final(self)@ == (SchedState {
                table: old(self)@.table.insert(
                    old(self).processes@[k as int].id.0,
                    with_state(old(self).processes@[k as int], st),
                ),
                ..old(self)@
            }),
            final(self).next_pid == old(self).next_pid,
    {
        proof {
            lemma_proc_update(
                self.processes@,
                k as int,
                with_state(self.processes@[k as int], st),
            );
        }
        self.processes[k].state = st;
    }

    /// A manager holding only the running kernel process "idle", with
    /// id 1, which is current.
    pub fn new() -> (ret: Self)
        ensures
            ret.wf(),
            ret@.table.dom() == set![1u64],
            kernel_process_spec(1, "idle"@, ret@.table[1]),
            ret@.queue == Seq::<ProcessId>::empty(),
            ret@.current == Some(ProcessId(1)),
            ret@.ticks == 0,
            ret.next_pid() == 2,
    {
        let mut next: u64 = 1;
        let idle = Process::kernel_process(String::from_str("idle"), &mut next);
        let idle_pid = idle.id;
        let mut processes: Vec<Process> = Vec::new();
        processes.push(idle);
        let ret = ProcessManager {
            processes,
            ready_queue: VecDeque::new(),
            current_process: Some(idle_pid),
            scheduler_ticks: 0,
            next_pid: next,
        };
        proof {
            lemma_proc_at(ret.processes@, 0);
            assert forall|k: u64| ret@.table.dom().contains(k) <==> k == 1 by {
                if has_pid(ret.processes@, k) {
                    let i = choose|i: int| 0 <= i < ret.processes@.len() && (#[trigger] ret.processes@[i]).id.0 == k;
                    assert(i == 0);
                }
            }
            assert(ret@.table.dom() =~= set![1u64]);
        }
        ret
    }

    /// Adds a ready process with the next id, at the back of the ready
    /// queue; the id is returned.
    pub fn create_process(&mut self, name: String, entry_point: u64) -> (ret: ProcessId)
        requires
            old(self).wf(),
        ensures
            final(self).wf(),
            ret.0 == old(self).next_pid(),
            final(self).next_pid() == next_counter(old(self).next_pid()),
            user_process(ret.0, name@, entry_point, final(self)@.table[ret.0]),
            final(self)@ == (SchedState {
                table: old(self)@.table.insert(ret.0, final(self)@.table[ret.0]),
                queue: old(self)@.queue.push(ret),
                ..old(self)@
            }),
    {
        let process = Process::new(name, entry_point, &mut self.next_pid);
        let pid = process.id;
        self.insert_process(process);
        self.ready_queue.push_back(pid);
        pid
    }

    /// The process with id `pid`.
    pub fn get_process(&self, pid: ProcessId) -> (ret: Option<&Process>)
        requires
            self.wf(),
        ensures
            ret is Some <==> self@.table.contains_key(pid.0),
            ret matches Some(p) ==> *p == self@.table[pid.0],
    {
        let (k, found) = self.find(pid.0);
        if found {
            Some(&self.processes[k])
        } else {
            None
        }
    }

    /// The process with id `pid`, to change in place; the table stays in
    /// order as long as its id is left alone.
    pub fn get_process_mut(&mut self, pid: ProcessId) -> (ret: Option<&mut Process>)
        requires
            old(self).wf(),
        ensures
            ret is Some <==> old(self)@.table.contains_key(pid.0),
            ret matches Some(p) ==> {
                &&& *p == old(self)@.table[pid.0]
                &&& final(self).procs() == old(self).procs().update(
                    pid_index(old(self).procs(), pid.0),
                    *final(p),
                )
                &&& final(self)@.queue == old(self)@.queue
                &&& final(self)@.current == old(self)@.current
                &&& final(self)@.ticks == old(self)@.ticks
                &&& final(self).next_pid() == old(self).next_pid()
            },
            ret is None ==> *final(self) == *old(self),
    {
        let (k, found) = self.find(pid.0);
        if found {
            proof {
                lemma_proc_at(self.processes@, k as int);
            }
            Some(&mut self.processes[k])
        } else {
            None
        }
    }

    /// The id of the current process.
    pub fn get_current_process(&self) -> (ret: Option<ProcessId>)
        ensures
            ret == self@.current,
    {
        self.current_process
    }

    /// All processes, in order of id.
    pub fn list_processes(&self) -> (ret: Vec<&Process>)
        ensures
            ret@.len() == self.procs().len(),
            forall|i: int| 0 <= i < ret@.len() ==> *ret@[i] == self.procs()[i],
    {
        let mut out: Vec<&Process> = Vec::new();
        let mut i: usize = 0;
        while i < self.processes.len()
            invariant
                i <= self.processes.len(),
                out@.len() == i,
                forall|j: int| 0 <= j < i ==> *out@[j] == self.processes@[j],
            decreases self.processes.len() - i,
        {
            out.push(&self.processes[i]);
            i = i + 1;
        }
        out
    }

    /// Drops `pid` from the ready queue, keeping the order of the rest.
    fn remove_from_queue(&mut self, pid: ProcessId)
        requires
            old(self).wf(),
        ensures
            final(self).wf(),
            final(self)@ == (SchedState { queue: old(self)@.queue.filter(not_pid(pid)), ..old(self)@ }),
            final(self).next_pid == old(self).next_pid,
    {
        let ghost q0 = self.ready_queue@;
        let mut kept: VecDeque<ProcessId> = VecDeque::new();
        let n = self.ready_queue.len();
        let mut i: usize = 0;
        while i < n
            invariant
                i <= n,
                n == q0.len(),
                self.ready_queue@ == q0,
                kept@ == q0.subrange(0, i as int).filter(not_pid(pid)),
            decreases n - i,
        {
            let p = self.ready_queue[i];
            proof {
                reveal(Seq::filter);
                assert(q0.subrange(0, i + 1).drop_last() =~= q0.subrange(0, i as int));
                assert(q0.subrange(0, i + 1).last() == p);
            }
            if p.0 != pid.0 {
                kept.push_back(p);
            }
            i = i + 1;
        }
        assert(q0.subrange(0, n as int) =~= q0);
        self.ready_queue = kept;
    }

    /// One round of the scheduler, which counts one more tick: the running
    /// process goes to the back of the ready queue, entries are taken from
    /// the front until one is ready, which becomes the running, current
    /// process; with none ready, the first process called "idle" runs.
    pub fn schedule(&mut self) -> (ret: Option<ProcessId>)
        requires
            old(self).wf(),
            old(self)@.ticks < u64::MAX,
        ensures
            final(self).wf(),
            final(self)@ == schedule_spec(old(self)@).0,
            ret == schedule_spec(old(self)@).1,
            final(self).next_pid() == old(self).next_pid(),
    {
        self.scheduler_ticks = self.scheduler_ticks + 1;
        if let Some(current_pid) = self.current_process {
            let (k, found) = self.find(current_pid.0);
            if found && self.processes[k].state == ProcessState::Running {
                self.set_state_at(k, ProcessState::Ready);
                self.ready_queue.push_back(current_pid);
            }
        }
        assert(self@ == (SchedState { ticks: old(self)@.ticks + 1, ..requeue(old(self)@) }));
        self.pick_next()
    }

    /// Takes the next process to run from the ready queue, or else the
    /// idle process.
    fn pick_next(&mut self) -> (ret: Option<ProcessId>)
        requires
            old(self).wf(),
        ensures
            final(self).wf(),
            final(self)@ == pick_spec(old(self)@).0,
            ret == pick_spec(old(self)@).1,
            final(self).next_pid() == old(self).next_pid(),
    {
        let ghost r = old(self)@;
        match self.take_ready() {
            Some(p) => Some(p),
            None => {
                let ret = self.run_idle();
                assert(idle_spec(r) == idle_spec(SchedState { queue: Seq::empty(), ..r }));
                ret
            },
        }
    }

    /// Runs the first process called "idle", if there is one; the ready
    /// queue ends empty.
    fn run_idle(&mut self) -> (ret: Option<ProcessId>)
        requires
            old(self).wf(),
        ensures
            final(self).wf(),
            final(self)@ == idle_spec(old(self)@).0,
            ret == idle_spec(old(self)@).1,
            final(self).next_pid() == old(self).next_pid(),
    {
        self.ready_queue = VecDeque::new();
        match self.find_idle() {
            Some(i) => {
                let id = self.processes[i].id;
                proof {
                    lemma_idle_first(self.processes@, i as int);
                }
                self.set_state_at(i, ProcessState::Running);
                self.current_process = Some(id);
                Some(id)
            },
            None => {
                proof {
                    lemma_no_idle(self.processes@);
                }
                None
            },
        }
    }

    /// Takes entries from the front of the ready queue until one is ready,
    /// which becomes the running, current process.
    fn take_ready(&mut self) -> (ret: Option<ProcessId>)
        requires
            old(self).wf(),
        ensures
            final(self).wf(),
            final(self).next_pid() == old(self).next_pid(),
            first_ready(old(self)@.table, old(self)@.queue, 0) < old(self)@.queue.len() ==> {
                &&& final(self)@ == pick_spec(old(self)@).0
                &&& ret == pick_spec(old(self)@).1
            },
            first_ready(old(self)@.table, old(self)@.queue, 0) >= old(self)@.queue.len() ==> {
                &&& ret is None
                &&& final(self)@ == (SchedState { queue: Seq::empty(), ..old(self)@ })
            },
    {
        let ghost r = old(self)@;
        let ghost mut j: int = 0;
        loop
            invariant
                r == old(self)@,
                self.wf(),
                0 <= j <= r.queue.len(),
                self@.table == r.table,
                self@.queue == r.queue.subrange(j, r.queue.len() as int),
                self@.current == r.current,
                self@.ticks == r.ticks,
                self.next_pid == old(self).next_pid,
                first_ready(r.table, r.queue, 0) == first_ready(r.table, r.queue, j),
            ensures
                self.wf(),
                self@.table == r.table,
                self@.queue.len() == 0,
                self@.current == r.current,
                self@.ticks == r.ticks,
                self.next_pid == old(self).next_pid,
                first_ready(r.table, r.queue, 0) == r.queue.len(),
            decreases self@.queue.len(),
        {
            match self.ready_queue.pop_front() {
                None => {
                    break;
                },
                Some(next_pid) => {
                    assert(r.queue[j] == next_pid);
                    let (k, found) = self.find(next_pid.0);
                    if found && self.processes[k].state == ProcessState::Ready {
                        assert(is_ready(r.table, r.queue[j]));
                        assert(first_ready(r.table, r.queue, j) == j);
                        self.set_state_at(k, ProcessState::Running);
                        self.current_process = Some(next_pid);
                        assert(self@.queue =~= r.queue.subrange(j + 1, r.queue.len() as int));
                        return Some(next_pid);
                    }
                    proof {
                        j = j + 1;
                    }
                    assert(self@.queue =~= r.queue.subrange(j, r.queue.len() as int));
                },
            }
        }
        assert(self@.queue =~= Seq::<ProcessId>::empty());
        None
    }

    /// The position of the first process called "idle".
    fn find_idle(&self) -> (ret: Option<usize>)
        ensures
            ret matches Some(i) ==> i < self.processes.len() && self.processes@[i as int].name@
                == "idle"@ && forall|a: int| 0 <= a < i ==> (#[trigger] self.processes@[a]).name@
                != "idle"@,
            ret is None ==> forall|a: int|
                0 <= a < self.processes.len() ==> (#[trigger] self.processes@[a]).name@ != "idle"@,
    {
        let mut i: usize = 0;
        while i < self.processes.len()
            invariant
                i <= self.processes.len(),
                forall|a: int| 0 <= a < i ==> (#[trigger] self.processes@[a]).name@ != "idle"@,
            decreases self.processes.len() - i,
        {
            if str_eq(self.processes[i].name.as_str(), "idle") {
                return Some(i);
            }
            i = i + 1;
        }
        None
    }

    /// Puts `pid` into the state `st`, drops it from the ready queue, and
    /// runs the scheduler when it was current.
    fn stop_process(&mut self, pid: ProcessId, st: ProcessState) -> (ret: Result<(), &'static str>)
        requires
            old(self).wf(),
            old(self)@.current == Some(pid) ==> old(self)@.ticks < u64::MAX,
        ensures
            final(self).wf(),
            final(self).next_pid() == old(self).next_pid(),
            final(self)@ == stop_spec(old(self)@, pid, st).0,
            match stop_spec(old(self)@, pid, st).1 {
                Ok(_) => ret is Ok,
                Err(msg) => ret matches Err(e) && e@ == msg,
            },
    {
        let (k, found) = self.find(pid.0);
        if !found {
            return Err("Process not found");
        }
        self.set_state_at(k, st);
        self.remove_from_queue(pid);
        let is_current = match self.current_process {
            Some(c) => c.0 == pid.0,
            None => false,
        };
        if is_current {
            self.current_process = None;
            let _ = self.schedule();
        }
        Ok(())
    }

    /// Marks `pid` terminated, drops it from the ready queue, and runs the
    /// scheduler when it was current.
    pub fn terminate_process(&mut self, pid: ProcessId) -> (ret: Result<(), &'static str>)
        requires
            old(self).wf(),
            old(self)@.current == Some(pid) ==> old(self)@.ticks < u64::MAX,
        ensures
            final(self).wf(),
            final(self).next_pid() == old(self).next_pid(),
            final(self)@ == stop_spec(old(self)@, pid, ProcessState::Terminated).0,
            match stop_spec(old(self)@, pid, ProcessState::Terminated).1 {
                Ok(_) => ret is Ok,
                Err(msg) => ret matches Err(e) && e@ == msg,
            },
    {
        self.stop_process(pid, ProcessState::Terminated)
    }

    /// Marks `pid` blocked, drops it from the ready queue, and runs the
    /// scheduler when it was current.
    pub fn block_process(&mut self, pid: ProcessId) -> (ret: Result<(), &'static str>)
        requires
            old(self).wf(),
            old(self)@.current == Some(pid) ==> old(self)@.ticks < u64::MAX,
        ensures
            final(self).wf(),
            final(self).next_pid() == old(self).next_pid(),
            final(self)@ == stop_spec(old(self)@, pid, ProcessState::Blocked).0,
            match stop_spec(old(self)@, pid, ProcessState::Blocked).1 {
                Ok(_) => ret is Ok,
                Err(msg) => ret matches Err(e) && e@ == msg,
            },
    {
        self.stop_process(pid, ProcessState::Blocked)
    }

    /// Makes a blocked `pid` ready, at the back of the ready queue; any
    /// other state is left as it is.
    pub fn unblock_process(&mut self, pid: ProcessId) -> (ret: Result<(), &'static str>)
        requires
            old(self).wf(),
        ensures
            final(self).wf(),
            final(self).next_pid() == old(self).next_pid(),
            final(self)@ == unblock_spec(old(self)@, pid).0,
            match unblock_spec(old(self)@, pid).1 {
                Ok(_) => ret is Ok,
                Err(msg) => ret matches Err(e) && e@ == msg,
            },
    {
        let (k, found) = self.find(pid.0);
        if !found {
            return Err("Process not found");
        }
        if self.processes[k].state == ProcessState::Blocked {
            self.set_state_at(k, ProcessState::Ready);
            self.ready_queue.push_back(pid);
        }
        Ok(())
    }

    /// How many times the scheduler has run.
    pub fn get_scheduler_ticks(&self) -> (ret: u64)
        ensures
            ret == self@.ticks,
    {
        self.scheduler_ticks
    }
}

/// Registers, saved across a context switch.
pub struct Context {
    pub rsp: u64,
    pub r15: u64,
    pub r14: u64,
    pub r13: u64,
    pub r12: u64,
    pub rbx: u64,
    pub rbp: u64,
}

impl Context {
    /// All registers zero.
    pub fn new() -> (ret: Self)
        ensures
            ret.rsp == 0 && ret.r15 == 0 && ret.r14 == 0 && ret.r13 == 0,
            ret.r12 == 0 && ret.rbx == 0 && ret.rbp == 0,
    {
        Context { rsp: 0, r15: 0, r14: 0, r13: 0, r12: 0, rbx: 0, rbp: 0 }
    }
}

/// Adds a ready process to `pm`; see `ProcessManager::create_process`.
pub fn create_process(pm: &mut ProcessManager, name: String, entry_point: u64) -> (ret: ProcessId)
    requires
        old(pm).wf(),
    ensures
        final(pm).wf(),
        ret.0 == old(pm).next_pid(),
        final(pm).next_pid() == next_counter(old(pm).next_pid()),
        user_process(ret.0, name@, entry_point, final(pm)@.table[ret.0]),
        final(pm)@ == (SchedState {
            table: old(pm)@.table.insert(ret.0, final(pm)@.table[ret.0]),
            queue: old(pm)@.queue.push(ret),
            ..old(pm)@
        }),
{
    pm.create_process(name, entry_point)
}

/// Runs the scheduler of `pm` once.
pub fn schedule(pm: &mut ProcessManager) -> (ret: Option<ProcessId>)
    requires
        old(pm).wf(),
        old(pm)@.ticks < u64::MAX,
    ensures
        final(pm).wf(),
        final(pm)@ == schedule_spec(old(pm)@).0,
        ret == schedule_spec(old(pm)@).1,
{
    pm.schedule()
}

/// The current process of `pm`.
pub fn get_current_process(pm: &ProcessManager) -> (ret: Option<ProcessId>)
    ensures
        ret == pm@.current,
{
    pm.get_current_process()
}

/// Terminates `pid` in `pm`.
pub fn terminate_process(pm: &mut ProcessManager, pid: ProcessId) -> (ret: Result<(), &'static str>)
    requires
        old(pm).wf(),
        old(pm)@.current == Some(pid) ==> old(pm)@.ticks < u64::MAX,
    ensures
        final(pm).wf(),
        final(pm)@ == stop_spec(old(pm)@, pid, ProcessState::Terminated).0,
        match stop_spec(old(pm)@, pid, ProcessState::Terminated).1 {
            Ok(_) => ret is Ok,
            Err(msg) => ret matches Err(e) && e@ == msg,
        },
{
    pm.terminate_process(pid)
}

/// Blocks the current process of `pm`; refused when there is none.
pub fn block_current_process(pm: &mut ProcessManager) -> (ret: Result<(), &'static str>)
    requires
        old(pm).wf(),
        old(pm)@.current is Some ==> old(pm)@.ticks < u64::MAX,
    ensures
        final(pm).wf(),
        match old(pm)@.current {
            Some(c) => final(pm)@ == stop_spec(old(pm)@, c, ProcessState::Blocked).0 && match stop_spec(
                old(pm)@,
                c,
                ProcessState::Blocked,
            ).1 {
                Ok(_) => ret is Ok,
                Err(msg) => ret matches Err(e) && e@ == msg,
            },
            None => (ret matches Err(e) && e@ == "No current process"@) && final(pm)@ == old(pm)@,
        },
{
    match pm.get_current_process() {
        Some(current_pid) => pm.block_process(current_pid),
        None => Err("No current process"),
    }
}

/// Makes the blocked `pid` in `pm` ready again.
pub fn unblock_process(pm: &mut ProcessManager, pid: ProcessId) -> (ret: Result<(), &'static str>)
    requires
        old(pm).wf(),
    ensures
        final(pm).wf(),
        final(pm)@ == unblock_spec(old(pm)@, pid).0,
        match unblock_spec(old(pm)@, pid).1 {
            Ok(_) => ret is Ok,
            Err(msg) => ret matches Err(e) && e@ == msg,
        },
{
    pm.unblock_process(pid)
}

/// After the scheduler picks a process, that process is current and
/// running, and the tick count has gone up by one.
pub proof fn lemma_schedule_runs_pick(s: SchedState)
    ensures
        schedule_spec(s).0.ticks == s.ticks + 1,
        schedule_spec(s).1 matches Some(p) ==> {
            &&& schedule_spec(s).0.current == Some(p)
            &&& schedule_spec(s).0.table.contains_key(p.0)
            &&& schedule_spec(s).0.table[p.0].state == ProcessState::Running
        },
{
    reveal(has_idle);
    reveal(idle_pid);
    let r = SchedState { ticks: s.ticks + 1, ..requeue(s) };
    lemma_first_ready_bounds(r.table, r.queue, 0);
    let f = first_ready(r.table, r.queue, 0);
    if f < r.queue.len() {
        lemma_first_ready_is_ready(r.table, r.queue, 0);
    }
}

/// The first ready position from `i` on is at least `i` and at most the
/// length.
pub proof fn lemma_first_ready_bounds(t: Map<u64, Process>, q: Seq<ProcessId>, i: int)
    requires
        0 <= i,
    ensures
        i <= first_ready(t, q, i) || (i > q.len() && first_ready(t, q, i) == q.len()),
        first_ready(t, q, i) <= q.len() || i > q.len(),
        first_ready(t, q, i) >= 0,
    decreases q.len() - i,
{
    if i < q.len() && !is_ready(t, q[i]) {
        lemma_first_ready_bounds(t, q, i + 1);
    }
}

/// The first ready position, when inside the queue, holds a ready process,
/// and none before it from `i` on is ready.
pub proof fn lemma_first_ready_is_ready(t: Map<u64, Process>, q: Seq<ProcessId>, i: int)
    requires
        0 <= i,
        first_ready(t, q, i) < q.len(),
    ensures
        is_ready(t, q[first_ready(t, q, i)]),
        forall|a: int| i <= a < first_ready(t, q, i) ==> !is_ready(t, #[trigger] q[a]),
    decreases q.len() - i,
{
    if i < q.len() && !is_ready(t, q[i]) {
        lemma_first_ready_is_ready(t, q, i + 1);
    }
}

/// Round robin: when the current process is running and the process at the
/// front of the queue is ready, the front process runs next and the one
/// that ran goes to the back of the queue, ready.
pub proof fn lemma_round_robin(s: SchedState, c: ProcessId)
    requires
        s.current == Some(c),
        s.table.contains_key(c.0),
        s.table[c.0].state == ProcessState::Running,
        s.queue.len() > 0,
        is_ready(s.table, s.queue[0]),
        s.queue[0] != c,
    ensures
        schedule_spec(s).1 == Some(s.queue[0]),
        schedule_spec(s).0.queue == s.queue.drop_first().push(c),
        schedule_spec(s).0.table[c.0].state == ProcessState::Ready,
        schedule_spec(s).0.current == Some(s.queue[0]),
{
    let r = SchedState { ticks: s.ticks + 1, ..requeue(s) };
    assert(r.queue[0] == s.queue[0]);
    assert(is_ready(r.table, r.queue[0]));
    assert(r.queue.subrange(1, r.queue.len() as int) =~= s.queue.drop_first().push(c));
}

/// The scheduler takes a process from the ready queue only when it is
/// ready; any other pick is the idle process.
pub proof fn lemma_schedule_picks_ready(s: SchedState)
    ensures
        schedule_spec(s).1 matches Some(p) ==> is_ready(requeue(s).table, p) || (has_idle(
            requeue(s).table,
        ) && p.0 == idle_pid(requeue(s).table)),
{
    let r = SchedState { ticks: s.ticks + 1, ..requeue(s) };
    lemma_first_ready_bounds(r.table, r.queue, 0);
    if first_ready(r.table, r.queue, 0) < r.queue.len() {
        lemma_first_ready_is_ready(r.table, r.queue, 0);
    }
}

/// A process that was blocked or terminated is no longer in the ready
/// queue, and keeps its new state unless it is the idle process that the
/// scheduler fell back on.
pub proof fn lemma_stopped_leaves_queue(s: SchedState, pid: ProcessId, st: ProcessState)
    requires
        s.table.contains_key(pid.0),
        st == ProcessState::Blocked || st == ProcessState::Terminated,
    ensures
        !stop_spec(s, pid, st).0.queue.contains(pid),
        stop_spec(s, pid, st).0.table[pid.0].state == st || (stop_spec(s, pid, st).0.current == Some(
            pid,
        ) && is_idle(s.table, pid.0)),
{
    broadcast use vstd::seq_lib::group_filter_ensures;

    let q1 = s.queue.filter(not_pid(pid));
    assert forall|a: int| 0 <= a < q1.len() implies q1[a] != pid by {
        assert(not_pid(pid)(q1[a]));
    }
    if s.current == Some(pid) {
        let s1 = SchedState {
            table: s.table.insert(pid.0, with_state(s.table[pid.0], st)),
            queue: q1,
            current: None,
            ..s
        };
        let r = SchedState { ticks: s1.ticks + 1, ..requeue(s1) };
        assert(r.queue == q1);
        lemma_first_ready_bounds(r.table, r.queue, 0);
        let f = first_ready(r.table, r.queue, 0);
        if f < r.queue.len() {
            lemma_first_ready_is_ready(r.table, r.queue, 0);
            let out = r.queue.subrange(f + 1, r.queue.len() as int);
            assert forall|a: int| 0 <= a < out.len() implies out[a] != pid by {
                assert(out[a] == q1[a + f + 1]);
            }
            assert(q1[f] != pid);
            assert(q1[f].0 != pid.0);
        } else {
            reveal(has_idle);
            reveal(idle_pid);
            assert(r.table[pid.0].name == s.table[pid.0].name);
            if has_idle(r.table) {
                lemma_idle_min_exists(r.table, choose|k0: u64| is_idle(r.table, k0));
                let k = idle_pid(r.table);
                if k == pid.0 {
                    assert(is_idle(r.table, k));
                    assert(is_idle(s.table, pid.0));
                }
            }
        }
    }
}

/// Unblocking a process just blocked (not current, not the idle process)
/// makes it ready again at the back of the ready queue.
pub proof fn lemma_unblock_after_block(s: SchedState, pid: ProcessId)
    requires
        s.table.contains_key(pid.0),
        s.current != Some(pid),
    ensures
        unblock_spec(stop_spec(s, pid, ProcessState::Blocked).0, pid).1 is Ok,
        unblock_spec(stop_spec(s, pid, ProcessState::Blocked).0, pid).0.table[pid.0].state
            == ProcessState::Ready,
        unblock_spec(stop_spec(s, pid, ProcessState::Blocked).0, pid).0.queue.last() == pid,
{
}

/// Among the processes called "idle" there is one with the smallest id.
pub proof fn lemma_idle_min_exists(t: Map<u64, Process>, k: u64)
    requires
        is_idle(t, k),
    ensures
        exists|m: u64| is_idle(t, m) && forall|k2: u64| is_idle(t, k2) ==> m <= k2,
    decreases k,
{
    if exists|k2: u64| is_idle(t, k2) && k2 < k {
        let k2 = choose|k2: u64| is_idle(t, k2) && k2 < k;
        lemma_idle_min_exists(t, k2);
    } else {
        assert(forall|k2: u64| is_idle(t, k2) ==> k <= k2);
    }
}

/// A terminated process that is not the idle process is never scheduled:
/// the scheduler does not pick it, and it stays terminated, so no later
/// round picks it either.
pub proof fn lemma_terminated_never_scheduled(s: SchedState, pid: ProcessId)
    requires
        s.table.contains_key(pid.0),
        s.table[pid.0].state == ProcessState::Terminated,
        s.table[pid.0].name@ != "idle"@,
    ensures
        schedule_spec(s).1 != Some(pid),
        schedule_spec(s).0.table.contains_key(pid.0),
        schedule_spec(s).0.table[pid.0] == s.table[pid.0],
{
    let r = SchedState { ticks: s.ticks + 1, ..requeue(s) };
    assert(r.table.contains_key(pid.0) && r.table[pid.0] == s.table[pid.0]);
    lemma_first_ready_bounds(r.table, r.queue, 0);
    let f = first_ready(r.table, r.queue, 0);
    if f < r.queue.len() {
        lemma_first_ready_is_ready(r.table, r.queue, 0);
        assert(r.queue[f] != pid);
    } else {
        reveal(has_idle);
        reveal(idle_pid);
        if has_idle(r.table) {
            let k0 = choose|k: u64| is_idle(r.table, k);
            lemma_idle_min_exists(r.table, k0);
            let k = idle_pid(r.table);
            assert(is_idle(r.table, k));
            assert(k != pid.0);
        }
    }
}

} // verus!
