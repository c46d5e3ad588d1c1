//! AArch64 task bookkeeping: the task pool, the circular ready queue and
//! the scheduling decisions (the register switch itself is done by the
//! platform layer).
use vstd::prelude::*;
use crate::karnal::KError;
use crate::armv9::mmu::KTaskId;

pub mod kresource;
pub mod kmemory;
pub mod ksync;
pub mod kmessaging;
pub mod kkernel;

verus! {

/// Life-cycle state of a task.
#[derive(Debug, Copy, Clone, PartialEq, Eq, Structural)]
pub enum TaskState {
    /// Waiting to be picked by the scheduler.
    Ready,
    /// On the CPU.
    Running,
    /// Waiting for a duration or an event.
    Sleeping,
    /// Waiting for a resource.
    Blocked,
    /// Finished.
    Exited,
}

/// Saved context and bookkeeping of one task.
#[derive(Debug, Copy, Clone)]
pub struct TaskControlBlock {
    pub x19: u64,
    pub x20: u64,
    pub x21: u64,
    pub x22: u64,
    pub x23: u64,
    pub x24: u64,
    pub x25: u64,
    pub x26: u64,
    pub x27: u64,
    pub x28: u64,
    /// Frame pointer.
    pub x29: u64,
    /// Link register: where the task goes when its function returns.
    pub x30: u64,
    pub sp: u64,
    /// Address execution resumes at when returning from the exception.
    pub elr_el1: u64,
    /// Processor state restored when returning from the exception.
    pub spsr_el1: u64,
    pub id: KTaskId,
    pub state: TaskState,
    pub stack_base: u64,
    pub stack_size: usize,
}

/// Size of the task pool and of the ready queue.
pub const MAX_TASKS: usize = 32;
/// Stack size given to a new task.
pub const TASK_STACK_SIZE: usize = 8192;
/// Entry point of user programs.
pub const USER_ENTRY_POINT: u64 = 0x40_0000;
/// Initial SPSR_EL1 of a user task (EL0t, interrupts unmasked).
pub const USER_SPSR_EL1: u64 = 0x300;

/// Source of task stacks.
pub trait StackAllocator {
    /// What a request for a stack of `size` bytes gives in this state: the
    /// base address of the new stack, or the error that refuses it.
    spec fn stack_outcome(&self, size: usize) -> Result<u64, KError>;

    /// The base address of a new stack of `size` bytes.
    fn allocate_stack(&mut self, size: usize) -> (r: Result<u64, KError>)
        ensures
            r == old(self).stack_outcome(size);

    /// Gives a stack back.
    fn free_stack(&mut self, ptr: u64, size: usize) -> Result<(), KError>;
}

/// What the scheduler decided.
#[derive(Debug, Copy, Clone, PartialEq, Eq, Structural)]
pub enum ScheduleOutcome {
    /// Save the context of pool slot `prev` (none when that task is gone)
    /// and resume the task in slot `next`.
    Switch { prev: Option<usize>, next: usize },
    /// No task can run, not even the idle task: the kernel must halt.
    Halt,
}

/// The state of the task manager.
pub ghost struct TaskManagerView {
    pub pool: Seq<Option<TaskControlBlock>>,
    pub next_task_id_counter: u64,
    pub current: int,
    pub ready_queue: Seq<usize>,
    pub head: int,
    pub tail: int,
}

/// The task manager.
pub struct TaskManager {
    pub task_pool: Vec<Option<TaskControlBlock>>,
    pub next_task_id_counter: u64,
    pub current_task_index: usize,
    pub ready_queue: Vec<usize>,
    pub ready_queue_head: usize,
    pub ready_queue_tail: usize,
}

impl View for TaskManager {
    type V = TaskManagerView;

    open spec fn view(&self) -> TaskManagerView {
        TaskManagerView {
            pool: self.task_pool@,
            next_task_id_counter: self.next_task_id_counter,
            current: self.current_task_index as int,
            ready_queue: self.ready_queue@,
            head: self.ready_queue_head as int,
            tail: self.ready_queue_tail as int,
        }
    }
}

/// `tcb` with its state replaced.
pub open spec fn with_state(tcb: TaskControlBlock, state: TaskState) -> TaskControlBlock {
    TaskControlBlock { state, ..tcb }
}

impl TaskManagerView {
    /// Pool and queue of full size, indices in range.
    pub open spec fn wf(&self) -> bool {
        &&& self.pool.len() == MAX_TASKS
        &&& self.ready_queue.len() == MAX_TASKS
        &&& 0 <= self.current < MAX_TASKS
        &&& 0 <= self.head < MAX_TASKS
        &&& 0 <= self.tail < MAX_TASKS
        &&& forall|i: int| 0 <= i < MAX_TASKS ==> #[trigger] self.ready_queue[i] < MAX_TASKS
    }

    /// The queue entry `a` places after the head names a ready task.
    pub open spec fn ready_at(&self, a: int) -> bool {
        let cand = self.ready_queue[(self.head + a) % (MAX_TASKS as int)] as int;
        self.pool[cand] matches Some(t) && t.state == TaskState::Ready
    }

    /// The first attempt at or after `a` that finds a ready task (or
    /// `MAX_TASKS` when none does).
    pub open spec fn first_ready_from(&self, a: int) -> int
        decreases MAX_TASKS - a,
    {
        if a >= MAX_TASKS {
            MAX_TASKS as int
        } else if self.ready_at(a) {
            a
        } else {
            self.first_ready_from(a + 1)
        }
    }

    /// The task the scheduler runs next, if any.
    pub open spec fn next_task(&self) -> Option<int> {
        let a = self.first_ready_from(0);
        if a < MAX_TASKS {
            Some(self.ready_queue[(self.head + a) % (MAX_TASKS as int)] as int)
        } else if self.pool[0] matches Some(t) && t.id.0 == 0
            && (t.state == TaskState::Ready || t.state == TaskState::Running) {
            Some(0)
        } else {
            None
        }
    }

    /// The outcome and the state after `schedule`.
    pub open spec fn schedule_spec(self) -> (ScheduleOutcome, TaskManagerView) {
        match self.next_task() {
            None => (ScheduleOutcome::Halt, self),
            Some(next) => {
                let a = self.first_ready_from(0);
                let head = if a < MAX_TASKS { (self.head + a + 1) % (MAX_TASKS as int) } else { self.head };
                let prev = self.current;
                let pool1 = match self.pool[prev] {
                    Some(t) => if t.state == TaskState::Running {
                        self.pool.update(prev, Some(with_state(t, TaskState::Ready)))
                    } else {
                        self.pool
                    },
                    None => self.pool,
                };
                let pool2 = pool1.update(next, Some(with_state(pool1[next]->Some_0, TaskState::Running)));
                let outcome = ScheduleOutcome::Switch {
                    prev: if self.pool[prev] is Some { Some(prev as usize) } else { None },
                    next: next as usize,
                };
                (outcome, TaskManagerView { pool: pool2, current: next, head, ..self })
            },
        }
    }
}

/// The idle task that owns slot 0 at start-up.
pub open spec fn idle_tcb() -> TaskControlBlock {
    TaskControlBlock {
        x19: 0, x20: 0, x21: 0, x22: 0, x23: 0, x24: 0, x25: 0, x26: 0, x27: 0, x28: 0, x29: 0, x30: 0,
        sp: 0, elr_el1: 0, spsr_el1: 0, id: KTaskId(0), state: TaskState::Running, stack_base: 0, stack_size: 0,
    }
}

/// The context of a newly spawned user task.
pub open spec fn spawned_tcb(id: u64, stack_base: u64, task_exit_handler: u64) -> TaskControlBlock {
    TaskControlBlock {
        x19: 0, x20: 0, x21: 0, x22: 0, x23: 0, x24: 0, x25: 0, x26: 0, x27: 0, x28: 0, x29: 0,
        x30: task_exit_handler,
        sp: stack_base.wrapping_add(TASK_STACK_SIZE as u64),
        elr_el1: USER_ENTRY_POINT,
        spsr_el1: USER_SPSR_EL1,
        id: KTaskId(id),
        state: TaskState::Ready,
        stack_base,
        stack_size: TASK_STACK_SIZE,
    }
}

} // verus!

verus! {

/// The first free pool slot at or after `k` (`MAX_TASKS` when none).
pub open spec fn first_free_from(pool: Seq<Option<TaskControlBlock>>, k: int) -> int
    decreases MAX_TASKS - k,
{
    if k >= MAX_TASKS {
        MAX_TASKS as int
    } else if pool[k] is None {
        k
    } else {
        first_free_from(pool, k + 1)
    }
}

proof fn lemma_first_free_bounds(pool: Seq<Option<TaskControlBlock>>, k: int)
    requires
        0 <= k <= MAX_TASKS,
    ensures
        k <= first_free_from(pool, k) <= MAX_TASKS,
        first_free_from(pool, k) < MAX_TASKS ==> pool[first_free_from(pool, k)] is None,
    decreases MAX_TASKS - k,
{
    if k < MAX_TASKS && pool[k] is Some {
        lemma_first_free_bounds(pool, k + 1);
    }
}

proof fn lemma_first_ready_bounds(v: TaskManagerView, a: int)
    requires
        0 <= a <= MAX_TASKS,
    ensures
        a <= v.first_ready_from(a) <= MAX_TASKS,
        v.first_ready_from(a) < MAX_TASKS ==> v.ready_at(v.first_ready_from(a)),
    decreases MAX_TASKS - a,
{
    if a < MAX_TASKS && !v.ready_at(a) {
        lemma_first_ready_bounds(v, a + 1);
    }
}

/// The first ready entry from attempt `k` on is `a` when `a` is ready and
/// no entry before it is.
proof fn lemma_first_ready_is(v: TaskManagerView, k: int, a: int)
    requires
        0 <= k <= a < MAX_TASKS,
        v.ready_at(a),
        forall|b: int| 0 <= b < a ==> !#[trigger] v.ready_at(b),
    ensures
        v.first_ready_from(k) == a,
    decreases a - k,
{
    if k < a {
        lemma_first_ready_is(v, k + 1, a);
    }
}

/// The scheduler takes the first ready task in the ready queue, counting
/// from the head, and consumes its entry: when the entry `a` places after
/// the head is the first that names a ready task, the switch goes to that
/// task and the head moves to the entry just after it.
pub proof fn lemma_schedule_consumes_entry(v: TaskManagerView, a: int)
    requires
        v.wf(),
        0 <= a < MAX_TASKS,
        v.ready_at(a),
        forall|b: int| 0 <= b < a ==> !#[trigger] v.ready_at(b),
    ensures
        v.schedule_spec().0 matches ScheduleOutcome::Switch { next, .. }
            && next as int == v.ready_queue[(v.head + a) % (MAX_TASKS as int)] as int,
        v.schedule_spec().1.head == (v.head + a + 1) % (MAX_TASKS as int),
        v.schedule_spec().1.ready_queue == v.ready_queue,
        v.schedule_spec().1.tail == v.tail,
{
    lemma_first_ready_is(v, 0, a);
    assert(v.ready_queue[(v.head + a) % (MAX_TASKS as int)] < MAX_TASKS);
}

/// When the scheduler switches, the task it switches to is the current one
/// and is running, and the manager stays well formed.
pub proof fn lemma_schedule_runs_next(v: TaskManagerView)
    requires
        v.wf(),
    ensures
        v.schedule_spec().0 matches ScheduleOutcome::Switch { next, .. } ==> {
            let w = v.schedule_spec().1;
            &&& w.current == next
            &&& w.pool[next as int] matches Some(t) && t.state == TaskState::Running
            &&& w.wf()
        },
        v.schedule_spec().0 is Halt ==> v.schedule_spec().1 == v,
{
    lemma_first_ready_bounds(v, 0);
    let a = v.first_ready_from(0);
    if a < MAX_TASKS {
        assert(v.ready_at(a));
    }
}

impl TaskManager {
    /// The manager at start-up: the idle task (id 0) running in slot 0,
    /// every other slot empty, the ready queue empty, task ids from 1.
    pub fn init_manager() -> (r: Self)
        ensures
            r@.wf(),
            r@.pool[0] == Some(idle_tcb()),
            forall|i: int| 1 <= i < MAX_TASKS ==> #[trigger] r@.pool[i] is None,
            r@.current == 0,
            r@.head == 0,
            r@.tail == 0,
            r@.next_task_id_counter == 1,
    {
        let mut task_pool: Vec<Option<TaskControlBlock>> = Vec::new();
        let mut ready_queue: Vec<usize> = Vec::new();
        let mut i: usize = 0;
        while i < MAX_TASKS
            invariant
                i <= MAX_TASKS,
                task_pool@.len() == i,
                ready_queue@.len() == i,
                forall|j: int| 0 <= j < i ==> #[trigger] task_pool@[j] is None,
                forall|j: int| 0 <= j < i ==> #[trigger] ready_queue@[j] == 0,
            decreases MAX_TASKS - i,
        {
            task_pool.push(None);
            ready_queue.push(0);
            i = i + 1;
        }
        task_pool.set(0, Some(TaskControlBlock {
            x19: 0, x20: 0, x21: 0, x22: 0, x23: 0, x24: 0, x25: 0, x26: 0, x27: 0, x28: 0, x29: 0, x30: 0,
            sp: 0, elr_el1: 0, spsr_el1: 0, id: KTaskId(0), state: TaskState::Running, stack_base: 0, stack_size: 0,
        }));
        TaskManager {
            task_pool,
            next_task_id_counter: 1,
            current_task_index: 0,
            ready_queue,
            ready_queue_head: 0,
            ready_queue_tail: 0,
        }
    }

    /// The id of the running task; 0 (the kernel/idle id) when its slot is
    /// empty.
    pub fn get_current_task_id(&self) -> (r: KTaskId)
        requires
            self@.wf(),
        ensures
            r == match self@.pool[self@.current] {
                Some(t) => t.id,
                None => KTaskId(0),
            },
    {
        match self.task_pool[self.current_task_index] {
            Some(tcb) => tcb.id,
            None => KTaskId(0),
        }
    }

    /// Picks the next task: the first ready task found in the queue from its
    /// head (entries passed over are dropped), else the idle task in slot 0
    /// when it is ready or running; the previous task, if still running,
    /// becomes ready and the chosen one running.
    pub fn schedule(&mut self) -> (r: ScheduleOutcome)
        requires
            old(self)@.wf(),
        ensures
            r == old(self)@.schedule_spec().0,
            final(self)@ == old(self)@.schedule_spec().1,
            final(self)@.wf(),
            forall|a: int| 0 <= a < MAX_TASKS && #[trigger] old(self)@.ready_at(a)
                && (forall|b: int| 0 <= b < a ==> !#[trigger] old(self)@.ready_at(b)) ==> {
                &&& r matches ScheduleOutcome::Switch { next, .. }
                    && next as int == old(self)@.ready_queue[(old(self)@.head + a) % (MAX_TASKS as int)] as int
                &&& final(self)@.head == (old(self)@.head + a + 1) % (MAX_TASKS as int)
            },
    {
        proof {
            lemma_schedule_runs_next(self@);
            lemma_first_ready_bounds(self@, 0);
            assert forall|a: int| 0 <= a < MAX_TASKS && #[trigger] self@.ready_at(a)
                && (forall|b: int| 0 <= b < a ==> !#[trigger] self@.ready_at(b)) implies {
                &&& self@.schedule_spec().0 matches ScheduleOutcome::Switch { next, .. }
                    && next as int == self@.ready_queue[(self@.head + a) % (MAX_TASKS as int)] as int
                &&& self@.schedule_spec().1.head == (self@.head + a + 1) % (MAX_TASKS as int)
            } by {
                lemma_schedule_consumes_entry(self@, a);
            }
        }
        let ghost v = self@;
        let prev_task_index = self.current_task_index;
        let mut next_task_index: usize = 0;
        let mut found_ready = false;
        let mut attempt_count: usize = 0;
        while attempt_count < MAX_TASKS
            invariant_except_break
                !found_ready,
                self@ == v,
            invariant
                v.wf(),
                attempt_count <= MAX_TASKS,
                v.first_ready_from(0) == v.first_ready_from(attempt_count as int),
                self.task_pool@ == v.pool,
                self.ready_queue@ == v.ready_queue,
                self.current_task_index == v.current,
                self.ready_queue_tail == v.tail,
                self.next_task_id_counter == v.next_task_id_counter,
            ensures
                found_ready ==> {
                    &&& v.first_ready_from(0) < MAX_TASKS
                    &&& next_task_index == v.ready_queue[(v.head + v.first_ready_from(0)) % (MAX_TASKS as int)]
                    &&& self.ready_queue_head == (v.head + v.first_ready_from(0) + 1) % (MAX_TASKS as int)
                },
                !found_ready ==> v.first_ready_from(0) == MAX_TASKS && self@ == v,
            decreases MAX_TASKS - attempt_count,
        {
            let candidate_queue_index = (self.ready_queue_head + attempt_count) % MAX_TASKS;
            let candidate = self.ready_queue[candidate_queue_index];
            let ready = match self.task_pool[candidate] {
                Some(tcb) => tcb.state == TaskState::Ready,
                None => false,
            };
            if ready {
                next_task_index = candidate;
                self.ready_queue_head = (candidate_queue_index + 1) % MAX_TASKS;
                found_ready = true;
                break;
            }
            attempt_count = attempt_count + 1;
        }
        if !found_ready {
            let idle_ok = match self.task_pool[0] {
                Some(tcb) => tcb.id.0 == 0 && (tcb.state == TaskState::Ready || tcb.state == TaskState::Running),
                None => false,
            };
            if !idle_ok {
                return ScheduleOutcome::Halt;
            }
            next_task_index = 0;
        }
        self.current_task_index = next_task_index;
        let prev = match self.task_pool[prev_task_index] {
            Some(tcb) => {
                if tcb.state == TaskState::Running {
                    self.task_pool.set(prev_task_index, Some(TaskControlBlock { state: TaskState::Ready, ..tcb }));
                }
                Some(prev_task_index)
            },
            None => None,
        };
        match self.task_pool[next_task_index] {
            Some(tcb) => {
                self.task_pool.set(next_task_index, Some(TaskControlBlock { state: TaskState::Running, ..tcb }));
            },
            None => {},
        }
        ScheduleOutcome::Switch { prev, next: next_task_index }
    }

    /// Creates a user task: takes a stack from `stacks`, puts a ready task
    /// control block (entry point `USER_ENTRY_POINT`, stack pointer at the
    /// stack top, link register `task_exit_handler`) in the first free slot
    /// and appends it to the ready queue. The pool being full or the queue
    /// being full gives `OutOfMemory`, with the stack given back.
    pub fn task_spawn<S: StackAllocator>(
        &mut self,
        stacks: &mut S,
        code_handle_value: u64,
        args_ptr: u64,
        args_len: usize,
        task_exit_handler: u64,
    ) -> (r: Result<KTaskId, KError>)
        requires
            old(self)@.wf(),
            old(stacks).stack_outcome(TASK_STACK_SIZE) is Ok && first_free_from(old(self)@.pool, 0) < MAX_TASKS
                ==> old(self).next_task_id_counter < u64::MAX,
        ensures
            final(self)@.wf(),
            r is Err ==> final(self)@ == old(self)@,
            old(stacks).stack_outcome(TASK_STACK_SIZE) matches Err(e) ==> r == Err::<KTaskId, KError>(e),
            old(stacks).stack_outcome(TASK_STACK_SIZE) is Ok && (first_free_from(old(self)@.pool, 0) >= MAX_TASKS
                || (old(self)@.tail + 1) % (MAX_TASKS as int) == old(self)@.head)
                ==> r == Err::<KTaskId, KError>(KError::OutOfMemory),
            old(stacks).stack_outcome(TASK_STACK_SIZE) is Ok && first_free_from(old(self)@.pool, 0) < MAX_TASKS
                && (old(self)@.tail + 1) % (MAX_TASKS as int) != old(self)@.head ==> r is Ok,
            r matches Ok(id) ==> {
                let v = old(self)@;
                let i = first_free_from(v.pool, 0);
                &&& i < MAX_TASKS
                &&& (v.tail + 1) % (MAX_TASKS as int) != v.head
                &&& id.0 == v.next_task_id_counter
                &&& old(stacks).stack_outcome(TASK_STACK_SIZE) matches Ok(stack_base)
                &&& final(self)@ == TaskManagerView {
                    pool: v.pool.update(i, Some(spawned_tcb(v.next_task_id_counter, stack_base, task_exit_handler))),
                    next_task_id_counter: (v.next_task_id_counter + 1) as u64,
                    ready_queue: v.ready_queue.update(v.tail, i as usize),
                    tail: (v.tail + 1) % (MAX_TASKS as int),
                    ..v
                }
            },
    {
        let stack_size: usize = TASK_STACK_SIZE;
        let stack_base_user = match stacks.allocate_stack(stack_size) {
            Ok(p) => p,
            Err(e) => {
                return Err(e);
            },
        };
        let initial_sp_user = stack_base_user.wrapping_add(stack_size as u64);
        proof { lemma_first_free_bounds(self@.pool, 0); }
        let mut new_task_index: usize = MAX_TASKS;
        let mut i: usize = 0;
        while i < MAX_TASKS
            invariant_except_break
                new_task_index == MAX_TASKS,
            invariant
                self@ == old(self)@,
                self@.wf(),
                i <= MAX_TASKS,
                first_free_from(self@.pool, 0) == first_free_from(self@.pool, i as int),
            ensures
                new_task_index == first_free_from(self@.pool, 0),
                self@ == old(self)@,
            decreases MAX_TASKS - i,
        {
            if self.task_pool[i].is_none() {
                new_task_index = i;
                break;
            }
            i = i + 1;
        }
        if new_task_index == MAX_TASKS {
            let _ = stacks.free_stack(stack_base_user, stack_size);
            return Err(KError::OutOfMemory);
        }
        let task_id = KTaskId(self.next_task_id_counter);
        self.next_task_id_counter = self.next_task_id_counter + 1;
        let new_tcb = TaskControlBlock {
            x19: 0, x20: 0, x21: 0, x22: 0, x23: 0, x24: 0, x25: 0, x26: 0, x27: 0, x28: 0, x29: 0,
            x30: task_exit_handler,
            sp: initial_sp_user,
            elr_el1: USER_ENTRY_POINT,
            spsr_el1: USER_SPSR_EL1,
            id: task_id,
            state: TaskState::Ready,
            stack_base: stack_base_user,
            stack_size,
        };
        self.task_pool.set(new_task_index, Some(new_tcb));
        let next_tail = (self.ready_queue_tail + 1) % MAX_TASKS;
        if next_tail == self.ready_queue_head {
            let _ = stacks.free_stack(stack_base_user, stack_size);
            self.task_pool.set(new_task_index, None);
            self.next_task_id_counter = self.next_task_id_counter - 1;
            proof {
                assert(self.task_pool@ =~= old(self)@.pool);
            }
            return Err(KError::OutOfMemory);
        }
        self.ready_queue.set(self.ready_queue_tail, new_task_index);
        self.ready_queue_tail = next_tail;
        proof {
            let v = old(self)@;
            assert(self@ == TaskManagerView {
                pool: v.pool.update(new_task_index as int, Some(spawned_tcb(v.next_task_id_counter, stack_base_user, task_exit_handler))),
                next_task_id_counter: (v.next_task_id_counter + 1) as u64,
                ready_queue: v.ready_queue.update(v.tail, new_task_index),
                tail: (v.tail + 1) % (MAX_TASKS as int),
                ..v
            });
        }
        Ok(task_id)
    }

    /// Ends the running task: gives its stack back, empties its slot and
    /// schedules.
    pub fn task_exit<S: StackAllocator>(&mut self, stacks: &mut S, exit_code: i32) -> (r: ScheduleOutcome)
        requires
            old(self)@.wf(),
        ensures
            ({
                let mid = TaskManagerView { pool: old(self)@.pool.update(old(self)@.current, None), ..old(self)@ };
                &&& r == mid.schedule_spec().0
                &&& final(self)@ == mid.schedule_spec().1
            }),
            final(self)@.wf(),
    {
        let current_idx = self.current_task_index;
        match self.task_pool[current_idx] {
            Some(tcb) => {
                let _ = stacks.free_stack(tcb.stack_base, tcb.stack_size);
            },
            None => {},
        }
        self.task_pool.set(current_idx, None);
        self.schedule()
    }

    /// Puts the running task to sleep for `duration_ms`; timed sleep is not
    /// supported by the synchronisation service yet, so the task is marked
    /// sleeping and the service's error is returned.
    pub fn task_sleep(&mut self, duration_ms: u64) -> (r: Result<ScheduleOutcome, KError>)
        requires
            old(self)@.wf(),
        ensures
            final(self)@.wf(),
            match old(self)@.pool[old(self)@.current] {
                None => r == Err::<ScheduleOutcome, KError>(KError::InternalError) && final(self)@ == old(self)@,
                Some(t) => r == Err::<ScheduleOutcome, KError>(KError::NotSupported)
                    && final(self)@ == TaskManagerView {
                        pool: old(self)@.pool.update(old(self)@.current, Some(with_state(t, TaskState::Sleeping))),
                        ..old(self)@
                    },
            },
    {
        let current_idx = self.current_task_index;
        let tcb = match self.task_pool[current_idx] {
            Some(t) => t,
            None => {
                return Err(KError::InternalError);
            },
        };
        self.task_pool.set(current_idx, Some(TaskControlBlock { state: TaskState::Sleeping, ..tcb }));
        match ksync::sleep_for(duration_ms) {
            Ok(()) => {},
            Err(e) => {
                return Err(e);
            },
        }
        Ok(self.schedule())
    }

    /// The running task gives up the CPU: it is marked ready, appended to
    /// the ready queue and the scheduler runs. A task that is not running
    /// gets `InvalidArgument`; a full queue gives `Busy` and nothing changes.
    pub fn yield_now(&mut self) -> (r: Result<ScheduleOutcome, KError>)
        requires
            old(self)@.wf(),
        ensures
            final(self)@.wf(),
            ({
                let v = old(self)@;
                match v.pool[v.current] {
                    None => r == Err::<ScheduleOutcome, KError>(KError::InternalError) && final(self)@ == v,
                    Some(t) => if t.state != TaskState::Running {
                        r == Err::<ScheduleOutcome, KError>(KError::InvalidArgument) && final(self)@ == v
                    } else if (v.tail + 1) % (MAX_TASKS as int) == v.head {
                        r == Err::<ScheduleOutcome, KError>(KError::Busy) && final(self)@ == v
                    } else {
                        let mid = TaskManagerView {
                            pool: v.pool.update(v.current, Some(with_state(t, TaskState::Ready))),
                            ready_queue: v.ready_queue.update(v.tail, v.current as usize),
                            tail: (v.tail + 1) % (MAX_TASKS as int),
                            ..v
                        };
                        &&& r == Ok::<ScheduleOutcome, KError>(mid.schedule_spec().0)
                        &&& final(self)@ == mid.schedule_spec().1
                    },
                }
            }),
    {
        let current_idx = self.current_task_index;
        let tcb = match self.task_pool[current_idx] {
            Some(t) => t,
            None => {
                return Err(KError::InternalError);
            },
        };
        if tcb.state == TaskState::Running {
            let next_tail = (self.ready_queue_tail + 1) % MAX_TASKS;
            if next_tail == self.ready_queue_head {
                return Err(KError::Busy);
            }
            self.task_pool.set(current_idx, Some(TaskControlBlock { state: TaskState::Ready, ..tcb }));
            self.ready_queue.set(self.ready_queue_tail, current_idx);
            self.ready_queue_tail = next_tail;
        } else {
            return Err(KError::InvalidArgument);
        }
        Ok(self.schedule())
    }
}

} // verus!
