//! The timer registry: creation with its checks in a fixed order, id
//! allocation, cancellation, orderly shutdown, read-only queries, and the
//! decisions of each timer's background task.
//!
//! The registry is a `DashMap` owned by the manager and changed only through
//! `&mut self`, so its contents can be stated exactly. Sleeping, spawning and
//! the host call are done by the caller, which feeds each outcome back through
//! `timer_step`; times are milliseconds on a monotonic clock of the caller.

use vstd::prelude::*;

use dashmap::DashMap;
use tokio::task::{JoinError, JoinHandle};

use crate::callback::{data_valid, valid_callback_name, CallbackData};
use crate::error::{error_code, TimerError, TimerResult};

verus! {

#[verifier::external_type_specification]
#[verifier::external_body]
#[verifier::reject_recursive_types(K)]
#[verifier::reject_recursive_types(V)]
#[verifier::reject_recursive_types(S)]
pub struct ExDashMap<K, V, S>(DashMap<K, V, S>);

#[verifier::external_type_specification]
#[verifier::external_body]
#[verifier::reject_recursive_types(T)]
pub struct ExJoinHandle<T>(JoinHandle<T>);

#[verifier::external_type_specification]
#[verifier::external_body]
pub struct ExJoinError(JoinError);

/// Relies on tokio's `JoinHandle::abort`: asks the runtime to cancel the task.
/// Nothing in this library depends on what it does.
pub assume_specification<T>[ JoinHandle::<T>::abort ](h: &JoinHandle<T>);

/// At most this many timers are live at once.
pub const MAX_TIMERS: usize = 10000;

/// No id is handed out once the counter comes this close to `i32::MAX`.
pub const ID_BUFFER: i32 = 1000;

/// The largest delay, in milliseconds.
pub const MAX_DELAY_MS: i32 = 2147483647;

/// Timers are drained in batches of this many ids during shutdown.
pub const SHUTDOWN_BATCH: usize = 100;

/// A repeating timer that has run more than this many times is reported as a
/// possible runaway; it keeps running.
pub const RUNAWAY_RUNS: u64 = 1000000;

/// Whether `runs` successful runs call for the runaway warning.
pub fn is_runaway(runs: u64) -> (r: bool)
    ensures
        r == (runs > RUNAWAY_RUNS),
{
    runs > RUNAWAY_RUNS
}

/// One scheduled unit of deferred work.
pub struct Timer {
    pub id: i32,
    pub delay_ms: u64,
    pub repeat: bool,
    pub callback: String,
    pub params: Option<CallbackData>,
    pub created_at: u64,
    pub last_execution: Option<u64>,
    pub execution_count: u64,
    pub task_handle: Option<JoinHandle<()>>,
}

/// What a query sees of a timer.
pub struct TimerInfo {
    pub delay_ms: u64,
    pub repeat: bool,
    pub callback: String,
    pub created_at: u64,
    pub execution_count: u64,
}

/// The registry of live timers, by id.
pub type TimerTable = DashMap<i32, Timer>;

/// The entries of a timer registry.
pub uninterp spec fn timer_table(m: TimerTable) -> Map<i32, Timer>;

/// Relies on `DashMap::new`: a map without entries.
#[verifier::external_body]
fn table_new() -> (r: TimerTable)
    ensures
        timer_table(r).dom() == Set::<i32>::empty(),
{
    DashMap::new()
}

/// Relies on `DashMap::insert`: afterwards `id` maps to `t`, and no other
/// entry has changed.
#[verifier::external_body]
fn table_insert(m: &mut TimerTable, id: i32, t: Timer)
    ensures
        timer_table(*final(m)) == timer_table(*old(m)).insert(id, t),
{
    m.insert(id, t);
}

/// Relies on `DashMap::remove`: hands back the value of `id`, if there is
/// one, and takes the entry out.
#[verifier::external_body]
fn table_remove(m: &mut TimerTable, id: i32) -> (r: Option<Timer>)
    ensures
        timer_table(*final(m)) == timer_table(*old(m)).remove(id),
        r == (if timer_table(*old(m)).dom().contains(id) {
            Some(timer_table(*old(m))[id])
        } else {
            None::<Timer>
        }),
{
    m.remove(&id).map(|entry| entry.1)
}

/// Relies on `DashMap::contains_key`.
#[verifier::external_body]
fn table_contains(m: &TimerTable, id: i32) -> (r: bool)
    ensures
        r == timer_table(*m).dom().contains(id),
{
    m.contains_key(&id)
}

/// Relies on `DashMap::get`, copying the fields a query reports.
#[verifier::external_body]
fn table_info(m: &TimerTable, id: i32) -> (r: Option<TimerInfo>)
    ensures
        r == (if timer_table(*m).dom().contains(id) {
            Some(info_of(timer_table(*m)[id]))
        } else {
            None::<TimerInfo>
        }),
{
    m.get(&id).map(
        |t|
            TimerInfo {
                delay_ms: t.delay_ms,
                repeat: t.repeat,
                callback: t.callback.clone(),
                created_at: t.created_at,
                execution_count: t.execution_count,
            },
    )
}

/// Relies on `DashMap::iter`: every key once, in an order the map chooses.
#[verifier::external_body]
fn table_ids(m: &TimerTable) -> (r: Vec<i32>)
    ensures
        r@.to_set() == timer_table(*m).dom(),
        r@.no_duplicates(),
{
    m.iter().map(|entry| *entry.key()).collect()
}

pub open spec fn info_of(t: Timer) -> TimerInfo {
    TimerInfo {
        delay_ms: t.delay_ms,
        repeat: t.repeat,
        callback: t.callback,
        created_at: t.created_at,
        execution_count: t.execution_count,
    }
}

/// A timer as it stands right after creation.
pub open spec fn fresh_timer(
    id: i32,
    delay_ms: i32,
    repeat: bool,
    callback: String,
    params: Option<CallbackData>,
    now: u64,
) -> Timer {
    Timer {
        id,
        delay_ms: delay_ms as u64,
        repeat,
        callback,
        params,
        created_at: now,
        last_execution: None,
        execution_count: 0,
        task_handle: None,
    }
}

/// A timer after one more successful run at `now`.
pub open spec fn marked(t: Timer, now: u64) -> Timer {
    Timer {
        last_execution: Some(now),
        execution_count: if t.execution_count < u64::MAX {
            (t.execution_count + 1) as u64
        } else {
            t.execution_count
        },
        ..t
    }
}

/// What holds of every live timer.
pub open spec fn timer_ok(id: i32, t: Timer) -> bool {
    &&& t.id == id
    &&& 0 < t.delay_ms <= MAX_DELAY_MS
    &&& valid_callback_name(t.callback@)
    &&& data_valid(t.params)
}

impl Timer {
    /// A timer that has not run yet and has no task.
    pub fn new(
        id: i32,
        delay_ms: i32,
        repeat: bool,
        callback: String,
        params: Option<CallbackData>,
        now: u64,
    ) -> (r: Timer)
        requires
            delay_ms > 0,
        ensures
            r == fresh_timer(id, delay_ms, repeat, callback, params, now),
    {
        Timer {
            id,
            delay_ms: delay_ms as u64,
            repeat,
            callback,
            params,
            created_at: now,
            last_execution: None,
            execution_count: 0,
            task_handle: None,
        }
    }

    /// Records a successful run at `now`.
    pub fn mark_execution(&mut self, now: u64)
        ensures
            *final(self) == marked(*old(self), now),
    {
        self.last_execution = Some(now);
        if self.execution_count < u64::MAX {
            self.execution_count = self.execution_count + 1;
        }
    }
}

/// The state of a timer manager.
pub struct ManagerView {
    pub table: Map<i32, Timer>,
    pub next_id: int,
    pub active: int,
    pub shutting_down: bool,
    pub shutdown_complete: bool,
}

/// The invariant of a timer manager: ids below the counter and positive,
/// every timer valid, the active count equal to the number of entries and
/// within the ceiling, and nothing left once shutdown has completed.
pub open spec fn manager_ok(v: ManagerView) -> bool {
    &&& 1 <= v.next_id <= i32::MAX
    &&& v.table.dom().finite()
    &&& v.active == v.table.dom().len()
    &&& v.active <= MAX_TIMERS
    &&& forall|id: i32| #[trigger]
        v.table.dom().contains(id) ==> 0 < id < v.next_id && timer_ok(id, v.table[id])
    &&& v.shutdown_complete ==> v.shutting_down && v.table.dom().len() == 0
}

/// The code (see `error_code`) of the first check that a creation fails, in
/// the order the checks are made, or 0 when it passes them all.
pub open spec fn creation_failure(
    v: ManagerView,
    delay_ms: i32,
    callback: Seq<char>,
    params: Option<CallbackData>,
) -> int {
    if v.shutting_down {
        -5
    } else if delay_ms <= 0 {
        -1
    } else if !valid_callback_name(callback) {
        -3
    } else if !data_valid(params) {
        -11
    } else if v.active >= MAX_TIMERS {
        -10
    } else if v.next_id >= i32::MAX - ID_BUFFER {
        -8
    } else {
        0
    }
}

/// The state after a successful creation of `t`, which takes the next id.
pub open spec fn with_created(v: ManagerView, t: Timer) -> ManagerView {
    ManagerView {
        table: v.table.insert(v.next_id as i32, t),
        next_id: v.next_id + 1,
        active: v.active + 1,
        ..v
    }
}

/// The state after the entry of `id` is taken out, if there is one: the
/// active count drops by one exactly when there was.
pub open spec fn without(v: ManagerView, id: i32) -> ManagerView {
    if v.table.dom().contains(id) {
        ManagerView { table: v.table.remove(id), active: v.active - 1, ..v }
    } else {
        v
    }
}

/// The state after a shutdown: nothing live, and later shutdowns change nothing.
pub open spec fn shut_down(v: ManagerView) -> ManagerView {
    if v.shutdown_complete {
        v
    } else {
        ManagerView {
            table: Map::empty(),
            next_id: v.next_id,
            active: 0,
            shutting_down: true,
            shutdown_complete: true,
        }
    }
}

/// What a timer's task reports to the manager.
#[derive(Debug, Clone, Copy, PartialEq, Eq)]
pub enum TaskEvent {
    /// The task has just been spawned.
    Started,
    /// The task has slept for the timer's delay.
    Woke,
    /// The callback has run; `true` when it succeeded.
    Ran(bool),
}

/// What a timer's task does next.
#[derive(Debug, Clone, Copy, PartialEq, Eq)]
pub enum TaskAction {
    /// Sleep for the timer's delay, then report `Woke`.
    Sleep,
    /// Run the callback, then report `Ran`.
    Dispatch,
    /// End the task; the registry holds no entry for the timer any more.
    Exit,
}

/// The decision of a timer's task on `event`, and the state it leaves.
/// Every terminal decision takes the timer's entry out, at most once.
pub open spec fn step_outcome(v: ManagerView, id: i32, event: TaskEvent, now: u64) -> (
    TaskAction,
    ManagerView,
) {
    match event {
        TaskEvent::Started => if v.shutting_down {
            (TaskAction::Exit, without(v, id))
        } else {
            (TaskAction::Sleep, v)
        },
        TaskEvent::Woke => if v.shutting_down {
            (TaskAction::Exit, without(v, id))
        } else if !v.table.dom().contains(id) {
            (TaskAction::Exit, v)
        } else {
            (TaskAction::Dispatch, v)
        },
        TaskEvent::Ran(ok) => if !v.table.dom().contains(id) {
            (TaskAction::Exit, v)
        } else if !v.table[id].repeat || v.shutting_down {
            (TaskAction::Exit, without(v, id))
        } else if ok {
            (
                TaskAction::Sleep,
                ManagerView { table: v.table.insert(id, marked(v.table[id], now)), ..v },
            )
        } else {
            (TaskAction::Sleep, v)
        },
    }
}

/// Owns the registry of live timers, the id counter, the active count and the
/// shutdown flags.
pub struct TimerManager {
    timers: TimerTable,
    next_id: i32,
    active: usize,
    shutting_down: bool,
    shutdown_complete: bool,
}

impl View for TimerManager {
    type V = ManagerView;

    closed spec fn view(&self) -> ManagerView {
        ManagerView {
            table: timer_table(self.timers),
            next_id: self.next_id as int,
            active: self.active as int,
            shutting_down: self.shutting_down,
            shutdown_complete: self.shutdown_complete,
        }
    }
}

impl TimerManager {
    pub open spec fn wf(&self) -> bool {
        manager_ok(self@)
    }

    pub fn new() -> (r: Self)
        ensures
            r.wf(),
            r@.table == Map::<i32, Timer>::empty(),
            r@.next_id == 1,
            r@.active == 0,
            !r@.shutting_down,
            !r@.shutdown_complete,
    {
        TimerManager {
            timers: table_new(),
            next_id: 1,
            active: 0,
            shutting_down: false,
            shutdown_complete: false,
        }
    }

    /// Takes out the entry of `id`, if any, cancelling its task.
    fn remove_timer(&mut self, id: i32) -> (r: bool)
        requires
            old(self).wf(),
        ensures
            final(self).wf(),
            final(self)@ == without(old(self)@, id),
            r == old(self)@.table.dom().contains(id),
    {
        match table_remove(&mut self.timers, id) {
            Some(t) => {
                if let Some(handle) = &t.task_handle {
                    handle.abort();
                }
                self.active = self.active - 1;
                true
            },
            None => {
                assert(timer_table(self.timers) =~= old(self)@.table);
                false
            },
        }
    }

    /// Registers a new timer. The checks come in this order: shutdown, delay,
    /// callback name, parameters, the ceiling on live timers, and the id
    /// counter. The caller then spawns the timer's task and attaches it.
    pub fn create_timer(
        &mut self,
        delay_ms: i32,
        repeat: bool,
        callback: String,
        params: Option<CallbackData>,
        now: u64,
    ) -> (r: TimerResult<i32>)
        requires
            old(self).wf(),
        ensures
            final(self).wf(),
            r is Err <==> creation_failure(old(self)@, delay_ms, callback@, params) != 0,
            r is Err ==> error_code(r->Err_0) == creation_failure(
                old(self)@,
                delay_ms,
                callback@,
                params,
            ) && final(self)@ == old(self)@,
            r matches Err(TimerError::InvalidDelay(d)) ==> d == delay_ms,
            r matches Err(TimerError::InvalidCallback(s)) ==> s@ == callback@,
            r matches Ok(id) ==> {
                &&& id == old(self)@.next_id
                &&& 0 < id
                &&& !old(self)@.table.dom().contains(id)
                &&& final(self)@ == with_created(
                    old(self)@,
                    fresh_timer(id, delay_ms, repeat, callback, params, now),
                )
            },
    {
        if self.shutting_down {
            return Err(TimerError::SystemShutdown);
        }
        if delay_ms <= 0 {
            return Err(TimerError::InvalidDelay(delay_ms));
        }
        if !crate::callback::is_valid_callback_name(callback.as_str()) {
            return Err(TimerError::InvalidCallback(callback));
        }
        match crate::callback::validate_data(&params) {
            Err(e) => {
                return Err(e);
            },
            Ok(()) => {},
        }
        if self.active >= MAX_TIMERS {
            return Err(
                TimerError::ResourceExhaustion(
                    String::from_str("Maximum timer limit reached: 10000"),
                ),
            );
        }
        if self.next_id >= i32::MAX - ID_BUFFER {
            return Err(TimerError::IdOverflow);
        }
        let id = self.next_id;
        let timer = Timer::new(id, delay_ms, repeat, callback, params, now);
        table_insert(&mut self.timers, id, timer);
        self.next_id = id + 1;
        self.active = self.active + 1;
        Ok(id)
    }

    /// Attaches the handle of a timer's task. Returns false, and drops the
    /// handle, when the timer is no longer registered.
    pub fn attach_task(&mut self, timer_id: i32, handle: JoinHandle<()>) -> (r: bool)
        requires
            old(self).wf(),
        ensures
            final(self).wf(),
            r == old(self)@.table.dom().contains(timer_id),
            r ==> final(self)@ == (ManagerView {
                table: old(self)@.table.insert(
                    timer_id,
                    Timer { task_handle: Some(handle), ..old(self)@.table[timer_id] },
                ),
                ..old(self)@
            }),
            !r ==> final(self)@ == old(self)@,
    {
        match table_remove(&mut self.timers, timer_id) {
            Some(mut t) => {
                t.task_handle = Some(handle);
                table_insert(&mut self.timers, timer_id, t);
                assert(timer_table(self.timers) =~= old(self)@.table.insert(timer_id, t));
                true
            },
            None => {
                assert(timer_table(self.timers) =~= old(self)@.table);
                false
            },
        }
    }

    /// Cancels a timer: its entry goes, its task is aborted, and the active
    /// count drops by one. An unknown id is `TimerNotFound`.
    pub fn kill_timer(&mut self, timer_id: i32) -> (r: TimerResult<()>)
        requires
            old(self).wf(),
        ensures
            final(self).wf(),
            r is Ok <==> old(self)@.table.dom().contains(timer_id),
            final(self)@ == without(old(self)@, timer_id),
            r is Err ==> (r matches Err(TimerError::TimerNotFound(id)) && id == timer_id),
    {
        if self.remove_timer(timer_id) {
            Ok(())
        } else {
            Err(TimerError::TimerNotFound(timer_id))
        }
    }

    pub fn active_timer_count(&self) -> (r: usize)
        ensures
            r == self@.active,
    {
        self.active
    }

    /// The delay, repeat flag, callback name and milliseconds since creation
    /// of a live timer; `None` once it is gone.
    pub fn get_timer_info(&self, timer_id: i32, now: u64) -> (r: Option<(u64, bool, String, u64)>)
        ensures
            r is None <==> !self@.table.dom().contains(timer_id),
            r matches Some(info) ==> {
                let t = self@.table[timer_id];
                &&& info.0 == t.delay_ms
                &&& info.1 == t.repeat
                &&& info.2 == t.callback
                &&& info.3 == if now >= t.created_at {
                    (now - t.created_at) as u64
                } else {
                    0u64
                }
            },
    {
        match table_info(&self.timers, timer_id) {
            Some(info) => {
                let elapsed = if now >= info.created_at {
                    now - info.created_at
                } else {
                    0
                };
                Some((info.delay_ms, info.repeat, info.callback, elapsed))
            },
            None => None,
        }
    }

    /// How many times a live timer's callback has run successfully.
    pub fn execution_count(&self, timer_id: i32) -> (r: Option<u64>)
        ensures
            r == (if self@.table.dom().contains(timer_id) {
                Some(self@.table[timer_id].execution_count)
            } else {
                None::<u64>
            }),
    {
        match table_info(&self.timers, timer_id) {
            Some(info) => Some(info.execution_count),
            None => None,
        }
    }

    /// Decides the next move of the task of `timer_id` after `event`, and
    /// makes the change it implies: a successful run is recorded, and a
    /// terminal decision takes the timer's entry out.
    pub fn timer_step(&mut self, timer_id: i32, event: TaskEvent, now: u64) -> (r: TaskAction)
        requires
            old(self).wf(),
        ensures
            final(self).wf(),
            (r, final(self)@) == step_outcome(old(self)@, timer_id, event, now),
    {
        match event {
            TaskEvent::Started => {
                if self.shutting_down {
                    self.remove_timer(timer_id);
                    TaskAction::Exit
                } else {
                    TaskAction::Sleep
                }
            },
            TaskEvent::Woke => {
                if self.shutting_down {
                    self.remove_timer(timer_id);
                    TaskAction::Exit
                } else if !table_contains(&self.timers, timer_id) {
                    TaskAction::Exit
                } else {
                    TaskAction::Dispatch
                }
            },
            TaskEvent::Ran(ok) => {
                match table_remove(&mut self.timers, timer_id) {
                    None => {
                        assert(timer_table(self.timers) =~= old(self)@.table);
                        TaskAction::Exit
                    },
                    Some(mut t) => {
                        if !t.repeat || self.shutting_down {
                            self.active = self.active - 1;
                            TaskAction::Exit
                        } else {
                            let ghost before = t;
                            if ok {
                                t.mark_execution(now);
                            }
                            table_insert(&mut self.timers, timer_id, t);
                            proof {
                                if ok {
                                    assert(timer_table(self.timers) =~= old(self)@.table.insert(
                                        timer_id,
                                        marked(before, now),
                                    ));
                                } else {
                                    assert(timer_table(self.timers) =~= old(self)@.table);
                                }
                            }
                            TaskAction::Sleep
                        }
                    },
                }
            },
        }
    }

    /// Starts a shutdown: raises the flag that every task sees at its next
    /// step, and hands back the ids still registered. `None`, with nothing
    /// changed, once a shutdown has completed.
    pub fn begin_shutdown(&mut self) -> (r: Option<Vec<i32>>)
        requires
            old(self).wf(),
        ensures
            final(self).wf(),
            old(self)@.shutdown_complete ==> r is None && final(self)@ == old(self)@,
            !old(self)@.shutdown_complete ==> {
                &&& r matches Some(ids)
                &&& ids@.to_set() == old(self)@.table.dom()
                &&& ids@.no_duplicates()
                &&& final(self)@ == ManagerView { shutting_down: true, ..old(self)@ }
            },
    {
        if self.shutdown_complete {
            return None;
        }
        self.shutting_down = true;
        Some(table_ids(&self.timers))
    }

    /// Takes out every timer among `ids` that is still registered, aborting
    /// its task; returns how many went.
    pub fn drain_timers(&mut self, ids: &Vec<i32>) -> (r: usize)
        requires
            old(self).wf(),
        ensures
            final(self).wf(),
            final(self)@.table == old(self)@.table.remove_keys(ids@.to_set()),
            final(self)@.next_id == old(self)@.next_id,
            final(self)@.shutting_down == old(self)@.shutting_down,
            final(self)@.shutdown_complete == old(self)@.shutdown_complete,
            r == old(self)@.active - final(self)@.active,
    {
        let ghost start = self@;
        let mut removed: usize = 0;
        let mut i: usize = 0;
        while i < ids.len()
            invariant
                self.wf(),
                i <= ids@.len(),
                self@.next_id == start.next_id,
                self@.shutting_down == start.shutting_down,
                self@.shutdown_complete == start.shutdown_complete,
                start.active <= MAX_TIMERS,
                removed == start.active - self@.active,
                forall|k: i32| #[trigger]
                    self@.table.dom().contains(k) <==> start.table.dom().contains(k)
                        && !ids@.subrange(0, i as int).contains(k),
                forall|k: i32| #[trigger]
                    self@.table.dom().contains(k) ==> self@.table[k] == start.table[k],
            decreases ids@.len() - i,
        {
            let id = ids[i];
            if self.remove_timer(id) {
                removed = removed + 1;
            }
            proof {
                let before = ids@.subrange(0, i as int);
                assert(ids@.subrange(0, i + 1) =~= before.push(id));
                assert forall|k: i32| #[trigger] before.push(id).contains(k) <==> (before.contains(k)
                    || k == id) by {
                    vstd::seq_lib::lemma_seq_contains_after_push(before, id, k);
                }
            }
            i = i + 1;
        }
        assert(ids@.subrange(0, ids@.len() as int) =~= ids@);
        assert(self@.table =~= start.table.remove_keys(ids@.to_set()));
        removed
    }

    /// Finishes a shutdown: whatever is still registered goes, and the
    /// shutdown counts as complete.
    pub fn complete_shutdown(&mut self)
        requires
            old(self).wf(),
        ensures
            final(self).wf(),
            final(self)@ == (ManagerView {
                table: Map::empty(),
                next_id: old(self)@.next_id,
                active: 0,
                shutting_down: true,
                shutdown_complete: true,
            }),
    {
        let ids = table_ids(&self.timers);
        self.drain_timers(&ids);
        assert(self@.table =~= Map::<i32, Timer>::empty());
        self.shutting_down = true;
        self.shutdown_complete = true;
    }

    /// Stops every timer and refuses new ones from then on. A second call
    /// changes nothing.
    pub fn shutdown(&mut self)
        requires
            old(self).wf(),
        ensures
            final(self).wf(),
            final(self)@ == shut_down(old(self)@),
    {
        match self.begin_shutdown() {
            None => {},
            Some(ids) => {
                self.drain_timers(&ids);
                self.complete_shutdown();
            },
        }
    }
}

/// The id a successful creation hands out is positive and held by no live
/// timer, and it becomes the largest live id while the counter moves past it;
/// since nothing else moves the counter, ids are never reused and each is
/// larger than the ones before it.
pub proof fn lemma_created_id_fresh(v: ManagerView, t: Timer)
    requires
        manager_ok(v),
    ensures
        0 < v.next_id,
        !v.table.dom().contains(v.next_id as i32),
        with_created(v, t).next_id > v.next_id,
        forall|k: i32| #[trigger]
            with_created(v, t).table.dom().contains(k) ==> k <= v.next_id,
{
}

/// At the ceiling on live timers, a creation that passes the earlier checks
/// fails with `ResourceExhaustion`; killing one live timer frees exactly one
/// slot, after which the same creation passes unless ids have run out.
pub proof fn lemma_ceiling_and_freed_slot(
    v: ManagerView,
    id: i32,
    delay_ms: i32,
    callback: Seq<char>,
    params: Option<CallbackData>,
)
    requires
        manager_ok(v),
        v.active == MAX_TIMERS,
        !v.shutting_down,
        delay_ms > 0,
        valid_callback_name(callback),
        data_valid(params),
        v.table.dom().contains(id),
    ensures
        creation_failure(v, delay_ms, callback, params) == error_code(
            TimerError::ResourceExhaustion(arbitrary()),
        ),
        without(v, id).active == v.active - 1,
        v.next_id < i32::MAX - ID_BUFFER ==> creation_failure(
            without(v, id),
            delay_ms,
            callback,
            params,
        ) == 0,
{
}

/// Killing an id that no live timer holds changes nothing, while killing the
/// id a creation has just handed out finds it and brings the active count
/// down by exactly one.
pub proof fn lemma_kill_after_create(v: ManagerView, t: Timer, unknown: i32)
    requires
        manager_ok(v),
        !v.table.dom().contains(unknown),
    ensures
        without(v, unknown) == v,
        with_created(v, t).table.dom().contains(v.next_id as i32),
        without(with_created(v, t), v.next_id as i32).active == with_created(v, t).active - 1,
        without(with_created(v, t), v.next_id as i32).table == v.table,
{
    assert(v.table.insert(v.next_id as i32, t).remove(v.next_id as i32) =~= v.table);
}

/// A one-shot timer's task ends after its first run, whatever the outcome,
/// and the timer is gone from the registry: its callback cannot run again.
pub proof fn lemma_one_shot_runs_once(v: ManagerView, id: i32, ok: bool, now: u64)
    requires
        manager_ok(v),
        v.table.dom().contains(id),
        !v.table[id].repeat,
    ensures
        step_outcome(v, id, TaskEvent::Ran(ok), now).0 == TaskAction::Exit,
        !step_outcome(v, id, TaskEvent::Ran(ok), now).1.table.dom().contains(id),
        step_outcome(step_outcome(v, id, TaskEvent::Ran(ok), now).1, id, TaskEvent::Woke, now).0
            == TaskAction::Exit,
{
}

/// Runs of one timer never overlap: a run is only ever started after a
/// wake-up, never right after the task starts or right after a run reports.
pub proof fn lemma_runs_are_sequential(v: ManagerView, id: i32, ok: bool, now: u64)
    requires
        manager_ok(v),
    ensures
        step_outcome(v, id, TaskEvent::Started, now).0 != TaskAction::Dispatch,
        step_outcome(v, id, TaskEvent::Ran(ok), now).0 != TaskAction::Dispatch,
{
}

/// No step of a task lowers a timer's run count, and a successful run of a
/// repeating timer that keeps going raises it by one (short of `u64::MAX`).
pub proof fn lemma_run_count_never_decreases(v: ManagerView, id: i32, event: TaskEvent, now: u64)
    requires
        manager_ok(v),
        v.table.dom().contains(id),
        step_outcome(v, id, event, now).1.table.dom().contains(id),
    ensures
        step_outcome(v, id, event, now).1.table[id].execution_count >= v.table[id].execution_count,
        event == TaskEvent::Ran(true) && v.table[id].execution_count < u64::MAX ==> step_outcome(
            v,
            id,
            event,
            now,
        ).1.table[id].execution_count == v.table[id].execution_count + 1,
{
}

/// A shutdown leaves no live timer, a second one changes nothing, and every
/// creation after it fails with `SystemShutdown`.
pub proof fn lemma_shutdown_final(
    v: ManagerView,
    delay_ms: i32,
    callback: Seq<char>,
    params: Option<CallbackData>,
)
    requires
        manager_ok(v),
    ensures
        shut_down(shut_down(v)) == shut_down(v),
        shut_down(v).active == 0,
        manager_ok(shut_down(v)),
        creation_failure(shut_down(v), delay_ms, callback, params) == error_code(
            TimerError::SystemShutdown,
        ),
{
}

} // verus!
