//! The cooperative task scheduler and its 16-bit tick clock.
//!
//! A `Scheduler` owns the shared state that the tick interrupt and the
//! foreground loop exchange: the wrapping tick counter and a fixed-capacity
//! table of tasks. On the target, `tick` runs in the timer interrupt and
//! `scheduler_run` is the capture phase of the dispatcher, both inside a
//! critical section; the captured actions are then invoked by the caller
//! with interrupts re-enabled, so interrupts stay masked only for the
//! bounded table scan, never for task bodies.
//!
//! The action a task performs is an opaque value of the caller's choosing
//! (on the target, a function pointer): the scheduler decides *which*
//! actions run and in what order, and hands them back for the foreground
//! loop to invoke.

use vstd::prelude::*;

verus! {

use crate::ticks::add_wrap;
use crate::ticks::add_wrap_u16;
use crate::ticks::time_reached;
use crate::ticks::time_reached_u16;
use crate::ticks::wrap_diff;
use crate::ticks::wrap_diff_u16;

/// Fixed capacity of the task table.
pub const MAX_TASKS: usize = 10;

/// One periodic or background activity. `period == 0` marks a background
/// task: permanently ready, captured on every dispatch. For `period > 0`
/// the task becomes ready when the clock reaches `next_run`, and `next_run`
/// then advances by `period`.
#[derive(Clone, Copy)]
pub struct Task<A: Copy> {
    pub action: A,
    pub period: u16,
    pub next_run: u16,
    pub ready: bool,
}

impl<A: Copy> Task<A> {
    /// A freshly registered task: first deadline one full period from clock
    /// zero; background tasks start ready.
    pub fn new(action: A, period: u16) -> (t: Task<A>)
        ensures
            t.action == action,
            t.period == period,
            t.next_run == period,
            t.ready == (period == 0),
    {
        Task { action, period, next_run: period, ready: period == 0 }
    }
}

/// Effect of one clock tick at the new clock value `now` on a single task:
/// a periodic task whose deadline has been reached is marked ready and its
/// deadline moves one period ahead of `now`; everything else is untouched.
/// The tick handler is the only writer that sets `ready`.
pub open spec fn tick_task<A: Copy>(t: Task<A>, now: u16) -> Task<A> {
    if t.period > 0 && time_reached(now, t.next_run) {
        Task { action: t.action, period: t.period, next_run: add_wrap(now, t.period), ready: true }
    } else {
        t
    }
}

/// Effect of one dispatch capture on a single task: a captured periodic
/// task has `ready` cleared; a background task keeps it. The capture phase
/// is the only writer that clears `ready`.
pub open spec fn capture_task<A: Copy>(t: Task<A>) -> Task<A> {
    Task { action: t.action, period: t.period, next_run: t.next_run, ready: t.ready && t.period == 0 }
}

/// Indices of the ready tasks, in table order: the tasks one dispatch call
/// captures.
pub open spec fn ready_indices<A: Copy>(tasks: Seq<Task<A>>) -> Seq<int>
    decreases tasks.len(),
{
    if tasks.len() == 0 {
        Seq::empty()
    } else {
        ready_indices(tasks.drop_last()) + if tasks.last().ready {
            seq![tasks.len() - 1]
        } else {
            Seq::empty()
        }
    }
}

/// Actions of the ready tasks, in table order.
pub open spec fn ready_actions<A: Copy>(tasks: Seq<Task<A>>) -> Seq<A> {
    ready_indices(tasks).map_values(|i: int| tasks[i].action)
}

/// The permanent table invariant on background tasks: a task registered
/// with period zero is ready from registration on, and neither the tick
/// handler nor the dispatch capture ever clears it.
pub open spec fn background_ready<A: Copy>(tasks: Seq<Task<A>>) -> bool {
    forall|i: int| 0 <= i < tasks.len() && (#[trigger] tasks[i]).period == 0 ==> tasks[i].ready
}

/// The shared scheduler state: the tick clock and the task table. The
/// table is a dense arena that only ever grows (tasks can never be removed
/// or reordered), so registration order is table order.
pub struct Scheduler<A: Copy> {
    pub time: u16,
    pub tasks: Vec<Task<A>>,
}

impl<A: Copy> Scheduler<A> {
    /// Well-formedness: the table fits its capacity and every background
    /// task is ready — an invariant that registration, the tick handler
    /// and the dispatch capture all preserve.
    pub open spec fn wf(self) -> bool {
        &&& self.tasks@.len() <= MAX_TASKS
        &&& background_ready(self.tasks@)
    }

    /// The scheduler at startup: clock at zero, no tasks.
    pub fn new() -> (s: Scheduler<A>)
        ensures
            s.wf(),
            s.time == 0,
            s.tasks@.len() == 0,
    {
        Scheduler { time: 0, tasks: Vec::new() }
    }

    /// Register a task in the first free slot. Registering into a full
    /// table is a silent no-op that leaves every existing task untouched:
    /// the caller is not told, by design.
    pub fn task_add(&mut self, action: A, period: u16)
        requires
            old(self).wf(),
        ensures
            final(self).wf(),
            final(self).time == old(self).time,
            old(self).tasks@.len() < MAX_TASKS ==> final(self).tasks@ == old(self).tasks@.push(
                Task { action, period, next_run: period, ready: period == 0 },
            ),
            old(self).tasks@.len() >= MAX_TASKS ==> final(self).tasks@ == old(self).tasks@,
    {
        if self.tasks.len() < MAX_TASKS {
            let t = Task::new(action, period);
            self.tasks.push(t);
        }
    }

    /// Atomic snapshot of the tick clock (taken under a critical section on
    /// the target).
    pub fn get_system_time(&self) -> (t: u16)
        ensures
            t == self.time,
    {
        self.time
    }

    /// The tick interrupt handler's work: advance the clock by one (with
    /// wraparound) and mark every periodic task whose deadline the new
    /// clock value has reached, moving its deadline one period ahead.
    /// Runs in bounded time: one pass over the table.
    pub fn tick(&mut self)
        requires
            old(self).wf(),
        ensures
            final(self).wf(),
            final(self).time == add_wrap(old(self).time, 1),
            final(self).tasks@ == old(self).tasks@.map_values(
                |t: Task<A>| tick_task(t, add_wrap(old(self).time, 1)),
            ),
    {
        let now = add_wrap_u16(self.time, 1);
        self.time = now;
        let ghost base = self.tasks@;
        let n = self.tasks.len();
        let mut i: usize = 0;
        while i < n
            invariant
                i <= n,
                n == base.len(),
                self.tasks@.len() == n,
                self.time == now,
                forall|j: int| 0 <= j < i ==> self.tasks@[j] == tick_task(base[j], now),
                forall|j: int| i <= j < n ==> self.tasks@[j] == base[j],
            decreases n - i,
        {
            let t = self.tasks[i];
            if t.period > 0 && time_reached_u16(now, t.next_run) {
                let fired = Task {
                    action: t.action,
                    period: t.period,
                    next_run: add_wrap_u16(now, t.period),
                    ready: true,
                };
                self.tasks.set(i, fired);
            }
            i += 1;
        }
        proof {
            assert(self.tasks@ =~= base.map_values(|t: Task<A>| tick_task(t, now)));
        }
    }

    /// The capture phase of the dispatcher: one pass over the table, under
    /// a critical section on the target. Every ready task's action is
    /// copied out in table order; captured periodic tasks have `ready`
    /// cleared, background tasks stay ready. The caller invokes the
    /// returned actions afterwards, outside the critical section, in the
    /// order returned.
    pub fn scheduler_run(&mut self) -> (captured: Vec<A>)
        requires
            old(self).wf(),
        ensures
            final(self).wf(),
            final(self).time == old(self).time,
            captured@ == ready_actions(old(self).tasks@),
            final(self).tasks@ == old(self).tasks@.map_values(|t: Task<A>| capture_task(t)),
    {
        let ghost base = self.tasks@;
        let mut captured: Vec<A> = Vec::new();
        let n = self.tasks.len();
        let mut i: usize = 0;
        while i < n
            invariant
                i <= n,
                n == base.len(),
                self.tasks@.len() == n,
                self.time == old(self).time,
                captured@ == ready_actions(base.take(i as int)),
                forall|j: int| 0 <= j < i ==> self.tasks@[j] == capture_task(base[j]),
                forall|j: int| i <= j < n ==> self.tasks@[j] == base[j],
            decreases n - i,
        {
            let t = self.tasks[i];
            if t.ready {
                captured.push(t.action);
                if t.period > 0 {
                    let cleared = Task {
                        action: t.action,
                        period: t.period,
                        next_run: t.next_run,
                        ready: false,
                    };
                    self.tasks.set(i, cleared);
                }
            }
            proof {
                lemma_ready_actions_step(base, i as int);
            }
            i += 1;
        }
        proof {
            assert(base.take(n as int) =~= base);
            assert(self.tasks@ =~= base.map_values(|t: Task<A>| capture_task(t)));
        }
        captured
    }
}

/// One poll step of the blocking busy-wait delay. The foreground loop
/// records a start snapshot of the clock and repeats this test on fresh
/// snapshots until it returns true; by design nothing else runs during the
/// wait unless the caller interleaves dispatch calls itself. The elapsed
/// count is modular, so the wait is exact even across clock wraparound.
pub fn delay(start: u16, now: u16, ms: u16) -> (done: bool)
    ensures
        done == (wrap_diff(now, start) >= ms),
{
    wrap_diff_u16(now, start) >= ms
}

/// Law: the delay never ends early. Fewer than `ms` ticks after the start
/// snapshot, the poll step still reports the wait as unfinished, even when
/// the clock wraps around in between.
pub proof fn lemma_delay_not_early(start: u16, ms: u16, k: u16)
    requires
        k < ms,
    ensures
        wrap_diff(add_wrap(start, k), start) < ms,
{
    crate::ticks::lemma_elapsed_of_advance(start, k);
}

/// Law: the delay ends on time. Exactly `ms` ticks after the start
/// snapshot the poll step reports the wait as finished.
pub proof fn lemma_delay_completes(start: u16, ms: u16)
    ensures
        wrap_diff(add_wrap(start, ms), start) >= ms,
{
    crate::ticks::lemma_elapsed_of_advance(start, ms);
}

/// Every element of `ready_indices` is a valid table index.
pub proof fn lemma_ready_indices_bounds<A: Copy>(tasks: Seq<Task<A>>)
    ensures
        forall|k: int|
            0 <= k < ready_indices(tasks).len() ==> 0 <= #[trigger] ready_indices(tasks)[k]
                < tasks.len(),
    decreases tasks.len(),
{
    if tasks.len() > 0 {
        let head = tasks.drop_last();
        lemma_ready_indices_bounds(head);
        assert forall|k: int|
            0 <= k < ready_indices(tasks).len() implies 0 <= #[trigger] ready_indices(tasks)[k]
            < tasks.len() by {
            if k < ready_indices(head).len() {
                assert(ready_indices(tasks)[k] == ready_indices(head)[k]);
            } else {
                assert(ready_indices(tasks)[k] == tasks.len() - 1);
            }
        }
    }
}

/// Law: a dispatch call captures a task if and only if its ready flag was
/// set at the capture snapshot.
pub proof fn lemma_captured_iff_ready<A: Copy>(tasks: Seq<Task<A>>, i: int)
    requires
        0 <= i < tasks.len(),
    ensures
        ready_indices(tasks).contains(i) <==> tasks[i].ready,
    decreases tasks.len(),
{
    let head = tasks.drop_last();
    let last = tasks.len() - 1;
    lemma_ready_indices_bounds(head);
    if i < last {
        lemma_captured_iff_ready(head, i);
        if ready_indices(head).contains(i) {
            let k = choose|k: int|
                0 <= k < ready_indices(head).len() && ready_indices(head)[k] == i;
            assert(ready_indices(tasks)[k] == i);
        }
        if ready_indices(tasks).contains(i) {
            let k = choose|k: int|
                0 <= k < ready_indices(tasks).len() && ready_indices(tasks)[k] == i;
            assert(k < ready_indices(head).len());
            assert(ready_indices(head)[k] == i);
        }
    } else {
        if tasks[last].ready {
            assert(ready_indices(tasks)[ready_indices(tasks).len() - 1] == last);
        }
        if ready_indices(tasks).contains(last) {
            let k = choose|k: int|
                0 <= k < ready_indices(tasks).len() && ready_indices(tasks)[k] == last;
            assert(k == ready_indices(tasks).len() - 1 || ready_indices(head)[k] == last);
        }
    }
}

/// Law: capture preserves table order. The captured indices are strictly
/// increasing, so actions are invoked in table (registration) order.
pub proof fn lemma_capture_in_table_order<A: Copy>(tasks: Seq<Task<A>>)
    ensures
        forall|k1: int, k2: int|
            0 <= k1 < k2 < ready_indices(tasks).len() ==> #[trigger] ready_indices(tasks)[k1]
                < #[trigger] ready_indices(tasks)[k2],
    decreases tasks.len(),
{
    if tasks.len() > 0 {
        let head = tasks.drop_last();
        lemma_capture_in_table_order(head);
        lemma_ready_indices_bounds(head);
        assert forall|k1: int, k2: int|
            0 <= k1 < k2 < ready_indices(tasks).len() implies #[trigger] ready_indices(tasks)[k1]
            < #[trigger] ready_indices(tasks)[k2] by {
            assert(ready_indices(tasks)[k1] == ready_indices(head)[k1]);
            if k2 < ready_indices(head).len() {
                assert(ready_indices(tasks)[k2] == ready_indices(head)[k2]);
            } else {
                assert(ready_indices(head)[k1] < head.len());
                assert(ready_indices(tasks)[k2] == tasks.len() - 1);
            }
        }
    }
}

/// Extending the scanned prefix by one task extends the captured actions
/// by that task's action exactly when it is ready.
proof fn lemma_ready_actions_step<A: Copy>(tasks: Seq<Task<A>>, i: int)
    requires
        0 <= i < tasks.len(),
    ensures
        ready_actions(tasks.take(i + 1)) == ready_actions(tasks.take(i)) + if tasks[i].ready {
            seq![tasks[i].action]
        } else {
            Seq::empty()
        },
{
    let shorter = tasks.take(i);
    let longer = tasks.take(i + 1);
    assert(longer.drop_last() =~= shorter);
    assert(longer.last() == tasks[i]);
    lemma_ready_indices_bounds(shorter);
    assert(ready_actions(longer) =~= ready_actions(shorter) + if tasks[i].ready {
        seq![tasks[i].action]
    } else {
        Seq::empty()
    });
}

/// Law: background tasks are immortal. In any table satisfying the
/// `background_ready` invariant — which `Scheduler::wf` carries and every
/// operation preserves — a task with period zero is captured on every
/// dispatch call regardless of the clock value, is untouched by every
/// clock tick, and keeps its ready flag through every dispatch capture.
pub proof fn lemma_background_always_captured<A: Copy>(tasks: Seq<Task<A>>, i: int, now: u16)
    requires
        0 <= i < tasks.len(),
        tasks[i].period == 0,
        background_ready(tasks),
    ensures
        tasks[i].ready,
        ready_indices(tasks).contains(i),
        capture_task(tasks[i]) == tasks[i],
        tick_task(tasks[i], now) == tasks[i],
{
    lemma_captured_iff_ready(tasks, i);
}

/// Law: a tick never clears a ready flag, so a task that has become ready
/// stays ready until the next dispatch capture.
pub proof fn lemma_tick_preserves_ready<A: Copy>(t: Task<A>, now: u16)
    requires
        t.ready,
    ensures
        tick_task(t, now).ready,
        tick_task(t, now).action == t.action,
        tick_task(t, now).period == t.period,
{
}

/// Law: when a periodic task's deadline is reached, the tick at clock
/// value `now` marks it ready and moves its deadline to exactly
/// `now + period` (mod 2^16); its action and period never change.
pub proof fn lemma_periodic_task_fires<A: Copy>(t: Task<A>, now: u16)
    requires
        t.period > 0,
        time_reached(now, t.next_run),
    ensures
        tick_task(t, now).ready,
        tick_task(t, now).next_run == add_wrap(now, t.period),
        tick_task(t, now).action == t.action,
        tick_task(t, now).period == t.period,
{
}

/// Law: a periodic task fires at most once per period. After it fires at
/// clock value `fired_at` its deadline is `fired_at + period`; every tick
/// at a clock value fewer than `period` ticks past `fired_at` leaves the
/// task completely untouched, so the ready flag is set exactly once per
/// deadline. Holds for periods below half the clock range, the domain on
/// which the modular due test is sound.
pub proof fn lemma_no_refire_before_deadline<A: Copy>(t: Task<A>, fired_at: u16, k: u16)
    requires
        0 < t.period < crate::ticks::HALF_RANGE,
        t.next_run == add_wrap(fired_at, t.period),
        k < t.period,
    ensures
        tick_task(t, add_wrap(fired_at, k)) == t,
{
    crate::ticks::lemma_not_due_before(fired_at, t.period, k);
}

/// Law: the full life of one periodic deadline. Let a task have period
/// `p` (positive, below half the clock range) and a due deadline. The
/// tick at clock value `now` that reaches the deadline marks the task
/// ready and moves the deadline to exactly `now + p` (mod 2^16); every
/// further tick before the new deadline leaves the fired task untouched —
/// ready stays set, the deadline stays put, so the flag is raised exactly
/// once per deadline; and the next dispatch capture clears the flag while
/// keeping the deadline.
pub proof fn lemma_periodic_deadline_cycle<A: Copy>(t: Task<A>, now: u16, k: u16)
    requires
        0 < t.period < crate::ticks::HALF_RANGE,
        time_reached(now, t.next_run),
        k < t.period,
    ensures
        ({
            let fired = tick_task(t, now);
            &&& fired.ready
            &&& fired.next_run == add_wrap(now, t.period)
            &&& tick_task(fired, add_wrap(now, k)) == fired
            &&& !capture_task(fired).ready
            &&& capture_task(fired).next_run == fired.next_run
            &&& capture_task(fired).action == t.action
        }),
{
    let fired = tick_task(t, now);
    lemma_no_refire_before_deadline(fired, now, k);
}

/// Law: no loss and no double dispatch for late arrivals. A task whose
/// ready flag is not set at the capture snapshot (for example one that a
/// reentered tick interrupt marks ready only during the execution phase)
/// is not captured by that dispatch call; once a later tick has marked it
/// ready, the next capture takes it.
pub proof fn lemma_late_ready_waits_one_call<A: Copy>(tasks: Seq<Task<A>>, i: int, now: u16)
    requires
        0 <= i < tasks.len(),
        !tasks[i].ready,
    ensures
        !ready_indices(tasks).contains(i),
        ({
            let after = tasks.map_values(|t: Task<A>| capture_task(t)).map_values(
                |t: Task<A>| tick_task(t, now),
            );
            after[i].ready ==> ready_indices(after).contains(i)
        }),
{
    lemma_captured_iff_ready(tasks, i);
    let after = tasks.map_values(|t: Task<A>| capture_task(t)).map_values(
        |t: Task<A>| tick_task(t, now),
    );
    lemma_captured_iff_ready(after, i);
}

/// Law: a captured periodic task is not dispatched again before a tick has
/// marked it ready anew: the capture clears its ready flag, so a second
/// capture on the resulting table does not take it.
pub proof fn lemma_no_double_dispatch<A: Copy>(tasks: Seq<Task<A>>, i: int)
    requires
        0 <= i < tasks.len(),
        tasks[i].ready,
        tasks[i].period > 0,
    ensures
        ready_indices(tasks).contains(i),
        !ready_indices(tasks.map_values(|t: Task<A>| capture_task(t))).contains(i),
{
    lemma_captured_iff_ready(tasks, i);
    lemma_captured_iff_ready(tasks.map_values(|t: Task<A>| capture_task(t)), i);
}

/// Law: dispatch invokes only registered actions. Every captured action is
/// the action of some ready task in the table, so an action that was never
/// stored in the table — for example one refused by a full-table
/// registration — is never invoked.
pub proof fn lemma_captured_only_registered<A: Copy>(tasks: Seq<Task<A>>, k: int)
    requires
        0 <= k < ready_actions(tasks).len(),
    ensures
        exists|i: int|
            0 <= i < tasks.len() && #[trigger] tasks[i].ready && tasks[i].action
                == ready_actions(tasks)[k],
{
    lemma_ready_indices_bounds(tasks);
    let i = ready_indices(tasks)[k];
    lemma_captured_iff_ready(tasks, i);
    assert(tasks[i].ready && tasks[i].action == ready_actions(tasks)[k]);
}

} // verus!
