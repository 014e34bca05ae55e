//! Accounting of the time each executor task spends idle, running and
//! waiting to run. Times are in ticks of the system clock.
use vstd::prelude::*;

verus! {

/// What a task is doing.
#[derive(Clone, Copy, Debug, PartialEq, Eq, Structural)]
pub enum TaskState {
    Idle,
    Running,
    Waiting,
}

/// What is known of one task since the counters were last reset.
#[derive(Clone, Copy, Debug)]
pub struct TaskInfo {
    pub name: Option<&'static str>,
    pub total_idle: u64,
    pub total_running: u64,
    pub total_waiting: u64,
    pub total_wakes: u64,
    pub current_state_since: u64,
    pub current_state: TaskState,
}

/// The time a task has spent in `state`.
pub open spec fn total_in(t: TaskInfo, state: TaskState) -> u64 {
    match state {
        TaskState::Idle => t.total_idle,
        TaskState::Running => t.total_running,
        TaskState::Waiting => t.total_waiting,
    }
}

/// The time counted so far in all states.
pub open spec fn total_time(t: TaskInfo) -> int {
    t.total_idle + t.total_running + t.total_waiting
}

/// The time from `since` to `now`, or zero where `now` comes first.
pub open spec fn elapsed(now: u64, since: u64) -> u64 {
    if now >= since {
        (now - since) as u64
    } else {
        0
    }
}

/// Whether an update at `now` can be counted without overflowing the total
/// of the state the task is in.
pub open spec fn can_update(t: TaskInfo, now: u64) -> bool {
    total_in(t, t.current_state) + elapsed(now, t.current_state_since) <= u64::MAX
}

/// A task first seen at `now`: idle, unnamed, with nothing counted.
pub open spec fn fresh_task(now: u64) -> TaskInfo {
    TaskInfo {
        name: None,
        total_idle: 0,
        total_running: 0,
        total_waiting: 0,
        total_wakes: 0,
        current_state_since: now,
        current_state: TaskState::Idle,
    }
}

/// The task after it entered `state` at `now`: the time since it entered
/// its current state counts towards that state.
pub open spec fn updated(t: TaskInfo, now: u64, state: TaskState) -> TaskInfo {
    let d = elapsed(now, t.current_state_since);
    TaskInfo {
        total_idle: if t.current_state == TaskState::Idle {
            (t.total_idle + d) as u64
        } else {
            t.total_idle
        },
        total_running: if t.current_state == TaskState::Running {
            (t.total_running + d) as u64
        } else {
            t.total_running
        },
        total_waiting: if t.current_state == TaskState::Waiting {
            (t.total_waiting + d) as u64
        } else {
            t.total_waiting
        },
        current_state_since: now,
        current_state: state,
        ..t
    }
}

/// The task after it was woken at `now`: it waits to run, and one more wake
/// is counted, the count stopping at its largest value.
pub open spec fn woken(t: TaskInfo, now: u64) -> TaskInfo {
    let u = updated(t, now, TaskState::Waiting);
    TaskInfo {
        total_wakes: if u.total_wakes == u64::MAX {
            u64::MAX
        } else {
            (u.total_wakes + 1) as u64
        },
        ..u
    }
}

/// The task at the start of a reporting period at `now`: nothing counted.
pub open spec fn reset_at(t: TaskInfo, now: u64) -> TaskInfo {
    TaskInfo {
        total_idle: 0,
        total_running: 0,
        total_waiting: 0,
        total_wakes: 0,
        current_state_since: now,
        ..t
    }
}

impl TaskInfo {
    /// A task first seen at `now`: idle, unnamed, with nothing counted.
    pub fn new(now: u64) -> (t: Self)
        ensures
            t == fresh_task(now),
    {
        TaskInfo {
            name: None,
            total_idle: 0,
            total_running: 0,
            total_waiting: 0,
            total_wakes: 0,
            current_state_since: now,
            current_state: TaskState::Idle,
        }
    }

    /// The task's name, or "unknown" where it has none.
    pub fn name(&self) -> (s: &'static str)
        ensures
            match self.name {
                Some(n) => s == n,
                None => s@ == "unknown"@,
            },
    {
        match self.name {
            Some(n) => n,
            None => "unknown",
        }
    }

    /// Starts a new reporting period at `now`: all counters back to zero.
    pub fn reset_counters(&mut self, now: u64)
        ensures
            *final(self) == reset_at(*old(self), now),
    {
        self.total_idle = 0;
        self.total_running = 0;
        self.total_waiting = 0;
        self.total_wakes = 0;
        self.current_state_since = now;
    }

    /// The task enters `new_state` at `now`: the time since it entered its
    /// current state counts towards that state.
    pub fn update(&mut self, now: u64, new_state: TaskState)
        requires
            can_update(*old(self), now),
        ensures
            *final(self) == updated(*old(self), now, new_state),
    {
        let duration = now.saturating_sub(self.current_state_since);
        match self.current_state {
            TaskState::Idle => {
                self.total_idle = self.total_idle + duration;
            },
            TaskState::Running => {
                self.total_running = self.total_running + duration;
            },
            TaskState::Waiting => {
                self.total_waiting = self.total_waiting + duration;
            },
        }
        self.current_state_since = now;
        self.current_state = new_state;
    }

    /// The task was woken at `now`: it now waits to run, and one more wake
    /// is counted (the count stops at its largest value).
    pub fn wake(&mut self, now: u64)
        requires
            can_update(*old(self), now),
        ensures
            *final(self) == woken(*old(self), now),
    {
        self.update(now, TaskState::Waiting);
        self.total_wakes = self.total_wakes.saturating_add(1);
    }
}

/// Each state keeps its own total: an update adds the time since the task
/// entered its current state to the total of that state alone, leaves the
/// totals of the other two states, the wake count and the name as they
/// were, and starts the new state at `now`.
pub proof fn lemma_update_counts_per_state(t: TaskInfo, now: u64, state: TaskState, d: int)
    requires
        d == if now >= t.current_state_since { now - t.current_state_since } else { 0 },
        can_update(t, now),
    ensures
        t.current_state == TaskState::Idle ==> {
            &&& updated(t, now, state).total_idle == t.total_idle + d
            &&& updated(t, now, state).total_running == t.total_running
            &&& updated(t, now, state).total_waiting == t.total_waiting
        },
        t.current_state == TaskState::Running ==> {
            &&& updated(t, now, state).total_idle == t.total_idle
            &&& updated(t, now, state).total_running == t.total_running + d
            &&& updated(t, now, state).total_waiting == t.total_waiting
        },
        t.current_state == TaskState::Waiting ==> {
            &&& updated(t, now, state).total_idle == t.total_idle
            &&& updated(t, now, state).total_running == t.total_running
            &&& updated(t, now, state).total_waiting == t.total_waiting + d
        },
        updated(t, now, state).current_state == state,
        updated(t, now, state).current_state_since == now,
        updated(t, now, state).total_wakes == t.total_wakes,
        updated(t, now, state).name == t.name,
{
}

/// A wake counts like an update into `Waiting`, and counts one more wake,
/// the count stopping at its largest value.
pub proof fn lemma_wake_counts_per_state(t: TaskInfo, now: u64, d: int)
    requires
        d == if now >= t.current_state_since { now - t.current_state_since } else { 0 },
        can_update(t, now),
    ensures
        t.current_state == TaskState::Idle ==> {
            &&& woken(t, now).total_idle == t.total_idle + d
            &&& woken(t, now).total_running == t.total_running
            &&& woken(t, now).total_waiting == t.total_waiting
        },
        t.current_state == TaskState::Running ==> {
            &&& woken(t, now).total_idle == t.total_idle
            &&& woken(t, now).total_running == t.total_running + d
            &&& woken(t, now).total_waiting == t.total_waiting
        },
        t.current_state == TaskState::Waiting ==> {
            &&& woken(t, now).total_idle == t.total_idle
            &&& woken(t, now).total_running == t.total_running
            &&& woken(t, now).total_waiting == t.total_waiting + d
        },
        woken(t, now).current_state == TaskState::Waiting,
        woken(t, now).current_state_since == now,
        t.total_wakes < u64::MAX ==> woken(t, now).total_wakes == t.total_wakes + 1,
        t.total_wakes == u64::MAX ==> woken(t, now).total_wakes == u64::MAX,
        woken(t, now).name == t.name,
{
}

/// A reset at `now` counts nothing in any state and no wakes, keeps the
/// task's state and name, and starts counting at `now`.
pub proof fn lemma_reset_counts_nothing(t: TaskInfo, now: u64)
    ensures
        reset_at(t, now).total_idle == 0,
        reset_at(t, now).total_running == 0,
        reset_at(t, now).total_waiting == 0,
        reset_at(t, now).total_wakes == 0,
        reset_at(t, now).current_state == t.current_state,
        reset_at(t, now).current_state_since == now,
        reset_at(t, now).name == t.name,
{
}

/// A task first seen at `now` is idle since `now`, unnamed, with nothing
/// counted in any state and no wakes.
pub proof fn lemma_fresh_task_counts_nothing(now: u64)
    ensures
        fresh_task(now).total_idle == 0,
        fresh_task(now).total_running == 0,
        fresh_task(now).total_waiting == 0,
        fresh_task(now).total_wakes == 0,
        fresh_task(now).current_state == TaskState::Idle,
        fresh_task(now).current_state_since == now,
        fresh_task(now).name is None,
{
}

/// Time is neither lost nor counted twice: an update adds to the totals,
/// together, exactly the time since the task entered its current state.
pub proof fn lemma_update_accounts_all_time(t: TaskInfo, now: u64, state: TaskState)
    requires
        can_update(t, now),
    ensures
        total_time(updated(t, now, state)) == total_time(t) + elapsed(now, t.current_state_since),
        updated(t, now, state).total_wakes == t.total_wakes,
{
}

/// How many tasks the table holds at most.
pub const TASK_TABLE_CAPACITY: usize = 32;

/// The tasks being accounted, held in a `heapless::FnvIndexMap` keyed by
/// executor task id. The map's hasher type belongs to a crate this library
/// does not depend on, so the map is kept in a private field of this opaque
/// struct and reached only through the functions below; `task_entries` names
/// what it holds.
#[verifier::external_body]
pub struct TaskMap {
    map: heapless::FnvIndexMap<u32, TaskInfo, 32>,
}

/// The entries of a `TaskMap`, as task id and task, in the map's order.
pub uninterp spec fn task_entries(m: TaskMap) -> Seq<(u32, TaskInfo)>;

/// Whether no two entries carry the same task id.
pub open spec fn distinct_ids(e: Seq<(u32, TaskInfo)>) -> bool {
    forall|i: int, j: int| 0 <= i < j < e.len() ==> e[i].0 != e[j].0
}

/// Whether an entry carries task id `id`.
pub open spec fn has_task(e: Seq<(u32, TaskInfo)>, id: u32) -> bool {
    exists|i: int| 0 <= i < e.len() && e[i].0 == id
}

/// The position of the entry that carries `id`.
pub open spec fn task_position(e: Seq<(u32, TaskInfo)>, id: u32) -> int {
    choose|i: int| 0 <= i < e.len() && e[i].0 == id
}

/// The entries after the one at `i` was removed the way the map removes:
/// the last entry takes its place.
pub open spec fn swap_removed(e: Seq<(u32, TaskInfo)>, i: int) -> Seq<(u32, TaskInfo)> {
    e.update(i, e.last()).drop_last()
}

/// `heapless::FnvIndexMap::new`: an empty map.
#[verifier::external_body]
fn task_map_new() -> (m: TaskMap)
    ensures
        task_entries(m) == Seq::<(u32, TaskInfo)>::empty(),
{
    TaskMap { map: heapless::FnvIndexMap::new() }
}

/// `heapless::IndexMap::insert`: where `id` is held, its task is replaced in
/// place and the old one handed back; otherwise the entry goes last, or,
/// with the map full, nothing changes and the entry is handed back.
#[verifier::external_body]
fn task_map_insert(m: &mut TaskMap, id: u32, task: TaskInfo) -> (r: Result<
    Option<TaskInfo>,
    (u32, TaskInfo),
>)
    requires
        distinct_ids(task_entries(*old(m))),
    ensures
        ({
            let e = task_entries(*old(m));
            if has_task(e, id) {
                &&& r == Ok::<Option<TaskInfo>, (u32, TaskInfo)>(Some(e[task_position(e, id)].1))
                &&& task_entries(*final(m)) == e.update(task_position(e, id), (id, task))
            } else if e.len() < TASK_TABLE_CAPACITY {
                &&& r == Ok::<Option<TaskInfo>, (u32, TaskInfo)>(None)
                &&& task_entries(*final(m)) == e.push((id, task))
            } else {
                &&& r == Err::<Option<TaskInfo>, (u32, TaskInfo)>((id, task))
                &&& task_entries(*final(m)) == e
            }
        }),
{
    m.map.insert(id, task)
}

/// `heapless::IndexMap::remove`: removes the entry of `id` and hands back its
/// task, the last entry taking its place; without such an entry nothing
/// changes.
#[verifier::external_body]
fn task_map_remove(m: &mut TaskMap, id: u32) -> (r: Option<TaskInfo>)
    requires
        distinct_ids(task_entries(*old(m))),
    ensures
        ({
            let e = task_entries(*old(m));
            if has_task(e, id) {
                &&& r == Some(e[task_position(e, id)].1)
                &&& task_entries(*final(m)) == swap_removed(e, task_position(e, id))
            } else {
                &&& r is None
                &&& task_entries(*final(m)) == e
            }
        }),
{
    m.map.remove(&id)
}

/// `heapless::IndexMap::get`: the task of `id`, copied out.
#[verifier::external_body]
fn task_map_get(m: &TaskMap, id: u32) -> (r: Option<TaskInfo>)
    requires
        distinct_ids(task_entries(*m)),
    ensures
        ({
            let e = task_entries(*m);
            if has_task(e, id) {
                r == Some(e[task_position(e, id)].1)
            } else {
                r is None
            }
        }),
{
    m.map.get(&id).copied()
}

/// `heapless::IndexMap::keys`: the task ids, in the map's order.
#[verifier::external_body]
fn task_map_ids(m: &TaskMap) -> (ids: Vec<u32>)
    ensures
        ids@ == task_entries(*m).map_values(|p: (u32, TaskInfo)| p.0),
{
    m.map.keys().copied().collect()
}

/// `heapless::IndexMap::values`: the tasks, copied out in the map's order.
#[verifier::external_body]
fn task_map_tasks(m: &TaskMap) -> (tasks: Vec<TaskInfo>)
    ensures
        tasks@ == task_entries(*m).map_values(|p: (u32, TaskInfo)| p.1),
{
    m.map.values().copied().collect()
}

/// The executor's tasks and what is known of each, by task id.
pub struct TaskTable {
    tasks: TaskMap,
}

impl View for TaskTable {
    type V = Seq<(u32, TaskInfo)>;

    closed spec fn view(&self) -> Seq<(u32, TaskInfo)> {
        task_entries(self.tasks)
    }
}

impl TaskTable {
    #[verifier::type_invariant]
    closed spec fn well_formed(self) -> bool {
        &&& distinct_ids(task_entries(self.tasks))
        &&& task_entries(self.tasks).len() <= TASK_TABLE_CAPACITY
    }

    /// A table with no tasks.
    pub fn new() -> (t: Self)
        ensures
            t@ == Seq::<(u32, TaskInfo)>::empty(),
    {
        TaskTable { tasks: task_map_new() }
    }

    /// The task of `id`, where the table holds one.
    pub fn get(&self, id: u32) -> (r: Option<TaskInfo>)
        ensures
            has_task(self@, id) ==> r == Some(self@[task_position(self@, id)].1),
            !has_task(self@, id) ==> r is None,
    {
        proof { use_type_invariant(self); }
        task_map_get(&self.tasks, id)
    }

    /// Writes back the task of `id`, which the table holds.
    fn replace(&mut self, id: u32, task: TaskInfo)
        requires
            has_task(old(self)@, id),
        ensures
            final(self)@ == old(self)@.update(task_position(old(self)@, id), (id, task)),
    {
        proof { use_type_invariant(&*self); }
        let ghost e = self@;
        let ghost i = task_position(e, id);
        let mut tasks = task_map_new();
        std::mem::swap(&mut tasks, &mut self.tasks);
        let _ = task_map_insert(&mut tasks, id, task);
        proof {
            assert forall|a: int, b: int| 0 <= a < b < task_entries(tasks).len() implies
                task_entries(tasks)[a].0 != task_entries(tasks)[b].0 by {
                if a == i || b == i {
                    assert(e[i].0 == id);
                }
            }
        }
        self.tasks = tasks;
    }

    /// A task was spawned at `now`: from now on it is accounted, idle and
    /// unnamed, in place of any task of the same id. Fails, changing
    /// nothing, where the table is full.
    pub fn task_new(&mut self, id: u32, now: u64) -> (r: Result<(), ()>)
        ensures
            has_task(old(self)@, id) ==> {
                &&& r is Ok
                &&& final(self)@ == old(self)@.update(
                    task_position(old(self)@, id),
                    (id, fresh_task(now)),
                )
            },
            !has_task(old(self)@, id) && old(self)@.len() < TASK_TABLE_CAPACITY ==> {
                &&& r is Ok
                &&& final(self)@ == old(self)@.push((id, fresh_task(now)))
            },
            !has_task(old(self)@, id) && old(self)@.len() >= TASK_TABLE_CAPACITY ==> {
                &&& r is Err
                &&& final(self)@ == old(self)@
            },
    {
        proof { use_type_invariant(&*self); }
        let ghost e = self@;
        let mut tasks = task_map_new();
        std::mem::swap(&mut tasks, &mut self.tasks);
        let r = task_map_insert(&mut tasks, id, TaskInfo::new(now));
        proof {
            if has_task(e, id) {
                let i = task_position(e, id);
                assert forall|a: int, b: int| 0 <= a < b < task_entries(tasks).len() implies
                    task_entries(tasks)[a].0 != task_entries(tasks)[b].0 by {
                    if a == i || b == i {
                        assert(e[i].0 == id);
                    }
                }
            } else if e.len() < TASK_TABLE_CAPACITY {
                assert forall|a: int, b: int| 0 <= a < b < task_entries(tasks).len() implies
                    task_entries(tasks)[a].0 != task_entries(tasks)[b].0 by {
                    if b == e.len() {
                        assert(task_entries(tasks)[a] == e[a]);
                    }
                }
            }
        }
        self.tasks = tasks;
        match r {
            Ok(_) => Ok(()),
            Err(_) => Err(()),
        }
    }

    /// A task ended: it is no longer accounted, and the last task takes its
    /// place. Fails, changing nothing, where the table holds no task `id`.
    pub fn task_end(&mut self, id: u32) -> (r: Result<(), ()>)
        ensures
            has_task(old(self)@, id) ==> {
                &&& r is Ok
                &&& final(self)@ == swap_removed(old(self)@, task_position(old(self)@, id))
            },
            !has_task(old(self)@, id) ==> r is Err && final(self)@ == old(self)@,
    {
        proof { use_type_invariant(&*self); }
        let ghost e = self@;
        let mut tasks = task_map_new();
        std::mem::swap(&mut tasks, &mut self.tasks);
        let r = task_map_remove(&mut tasks, id);
        proof {
            if has_task(e, id) {
                let i = task_position(e, id);
                let f = task_entries(tasks);
                assert forall|a: int, b: int| 0 <= a < b < f.len() implies f[a].0 != f[b].0 by {
                    let ea = if a == i { e.len() - 1 } else { a };
                    let eb = if b == i { e.len() - 1 } else { b };
                    assert(f[a] == e[ea]);
                    assert(f[b] == e[eb]);
                }
            }
        }
        self.tasks = tasks;
        match r {
            Some(_) => Ok(()),
            None => Err(()),
        }
    }

    /// Task `id`, where the table holds it, was woken at `now`.
    pub fn wake(&mut self, id: u32, now: u64)
        requires
            has_task(old(self)@, id) ==> can_update(old(self)@[task_position(old(self)@, id)].1, now),
        ensures
            has_task(old(self)@, id) ==> final(self)@ == old(self)@.update(
                task_position(old(self)@, id),
                (id, woken(old(self)@[task_position(old(self)@, id)].1, now)),
            ),
            !has_task(old(self)@, id) ==> final(self)@ == old(self)@,
    {
        if let Some(mut task) = self.get(id) {
            task.wake(now);
            self.replace(id, task);
        }
    }

    /// Task `id`, where the table holds it, entered `state` at `now`.
    pub fn enter(&mut self, id: u32, now: u64, state: TaskState)
        requires
            has_task(old(self)@, id) ==> can_update(old(self)@[task_position(old(self)@, id)].1, now),
        ensures
            has_task(old(self)@, id) ==> final(self)@ == old(self)@.update(
                task_position(old(self)@, id),
                (id, updated(old(self)@[task_position(old(self)@, id)].1, now, state)),
            ),
            !has_task(old(self)@, id) ==> final(self)@ == old(self)@,
    {
        if let Some(mut task) = self.get(id) {
            task.update(now, state);
            self.replace(id, task);
        }
    }

    /// Names task `id`, where the table holds it.
    pub fn set_name(&mut self, id: u32, name: &'static str)
        ensures
            has_task(old(self)@, id) ==> final(self)@ == old(self)@.update(
                task_position(old(self)@, id),
                (id, TaskInfo { name: Some(name), ..old(self)@[task_position(old(self)@, id)].1 }),
            ),
            !has_task(old(self)@, id) ==> final(self)@ == old(self)@,
    {
        if let Some(mut task) = self.get(id) {
            task.name = Some(name);
            self.replace(id, task);
        }
    }

    /// Ends a reporting period at `now`: hands out every task as it stood, in
    /// the table's order, and starts each afresh with nothing counted.
    pub fn report(&mut self, now: u64) -> (sample: Vec<TaskInfo>)
        ensures
            sample@ == old(self)@.map_values(|p: (u32, TaskInfo)| p.1),
            final(self)@ == old(self)@.map_values(
                |p: (u32, TaskInfo)| (p.0, reset_at(p.1, now)),
            ),
    {
        proof { use_type_invariant(&*self); }
        let ghost e = self@;
        let sample = task_map_tasks(&self.tasks);
        let ids = task_map_ids(&self.tasks);
        let n = ids.len();
        for k in 0..n
            invariant
                n == ids@.len(),
                ids@ == e.map_values(|p: (u32, TaskInfo)| p.0),
                distinct_ids(e),
                self@.len() == e.len(),
                forall|j: int| 0 <= j < k ==> #[trigger] self@[j] == (e[j].0, reset_at(e[j].1, now)),
                forall|j: int| k <= j < e.len() ==> #[trigger] self@[j] == e[j],
        {
            let id = ids[k];
            proof {
                use_type_invariant(&*self);
                assert(self@[k as int].0 == id);
                let i = task_position(self@, id);
                assert(has_task(self@, id));
                if i != k {
                    assert(self@[i].0 == id);
                    let ei = e[i].0;
                    if i < k {
                        assert(self@[i] == (e[i].0, reset_at(e[i].1, now)));
                    }
                    assert(e[i].0 == id);
                    assert(e[k as int].0 == id);
                }
            }
            if let Some(mut task) = self.get(id) {
                task.reset_counters(now);
                self.replace(id, task);
            }
        }
        proof {
            assert(self@ =~= e.map_values(|p: (u32, TaskInfo)| (p.0, reset_at(p.1, now))));
        }
        sample
    }
}

} // verus!
