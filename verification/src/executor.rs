//! Cooperative scheduler.
//!
//! One logical scheduler owns a small set of spawned operations and
//! repeatedly polls them.  Two process-wide flags are the only state
//! shared with interrupt context: `work_pending`, set by the pend hook
//! whenever a resumption callback fires, and `finished`, set exactly
//! once by an explicit termination marker invoked from inside a task.
//! The loop exits only on `finished`; otherwise it clears a pending
//! wake and re-polls, or halts the processor until the next interrupt.

use vstd::prelude::*;

use crate::driver::AsyncCharReader;
use crate::driver::AsyncCharWriter;
use crate::driver::AsyncNS16550a;
use crate::driver::OpState;
use crate::driver::try_deliver_irq;
use crate::masking::IntrLine;
use crate::masking::IntrMaskingInfo;
use crate::uart::HwEvent;
use crate::uart::WakerId;

verus! {

/// The two scheduler flags shared between interrupt context and the
/// poll loop.  Interrupt context only ever sets them true, and the loop
/// clears `work_pending` only after observing it true, so no legitimate
/// wakeup is lost without any lock around them.
pub struct SchedFlags {
    /// A resumption callback fired since the last time the loop looked.
    pub work_pending: bool,
    /// The termination marker has been invoked.
    pub finished: bool,
}

impl SchedFlags {
    pub fn new() -> (r: Self)
        ensures
            !r.work_pending,
            !r.finished,
    {
        SchedFlags { work_pending: false, finished: false }
    }
}

/// Pend hook: every resumption callback lands here and records that the
/// scheduler has work, so a halted processor resumes polling.
pub fn __pender(flags: &mut SchedFlags)
    ensures
        final(flags).work_pending,
        final(flags).finished == old(flags).finished,
{
    flags.work_pending = true;
}

/// Termination hook: records that the scheduler should stop.  Invoked
/// only through a `WorkMarker`, from application code inside a task.
pub fn __work_finish(flags: &mut SchedFlags)
    ensures
        final(flags).finished,
        final(flags).work_pending == old(flags).work_pending,
{
    flags.finished = true;
}

/// Capability handed to application tasks for signalling that the
/// scheduler's work is done; the only way `finished` is ever set.
#[derive(Clone, Copy)]
pub struct WorkMarker {}

impl WorkMarker {
    pub fn new() -> (r: Self) {
        WorkMarker {}
    }

    /// Signal that the scheduler should stop once it next looks.
    pub fn mark_finish(self, flags: &mut SchedFlags)
        ensures
            final(flags).finished,
            final(flags).work_pending == old(flags).work_pending,
    {
        __work_finish(flags);
    }
}

/// What the scheduler's loop does after a full polling pass.
pub enum SchedAction {
    /// The termination marker was invoked: leave the loop.
    Stop,
    /// A resumption fired meanwhile: clear the signal and poll again.
    Repoll,
    /// Nothing to do: halt the processor until the next interrupt.
    Halt,
}

/// The loop's decision after a polling pass, over the shared flags.
pub open spec fn spec_sched_decision(f: SchedFlags) -> SchedAction {
    if f.finished {
        SchedAction::Stop
    } else if f.work_pending {
        SchedAction::Repoll
    } else {
        SchedAction::Halt
    }
}

/// Decide what the loop does next, and clear the wake signal when it
/// was the reason to poll again.  The loop stops iff the termination
/// marker has been invoked, no matter how many spurious wake signals
/// came first.
pub fn sched_decision(flags: &mut SchedFlags) -> (a: SchedAction)
    ensures
        a == spec_sched_decision(*old(flags)),
        a is Stop <==> old(flags).finished,
        final(flags).finished == old(flags).finished,
        final(flags).work_pending == (if a is Repoll {
            false
        } else {
            old(flags).work_pending
        }),
{
    if flags.finished {
        SchedAction::Stop
    } else if flags.work_pending {
        flags.work_pending = false;
        SchedAction::Repoll
    } else {
        SchedAction::Halt
    }
}

/// No sequence of wake signals alone makes the loop stop: as long as
/// the termination marker has not been invoked, the decision is never
/// to leave the loop.
pub proof fn lemma_no_stop_without_finish(f: SchedFlags)
    requires
        !f.finished,
    ensures
        !(spec_sched_decision(f) is Stop),
{
}

/// The suspendable operation a task runs.
#[derive(Clone, Copy)]
pub enum TaskOp {
    Read(AsyncCharReader),
    Write(AsyncCharWriter),
}

/// One spawned task: its operation, whether the scheduler should poll
/// it on the next pass, and, for a task whose application code signals
/// termination when it is done, the marker it invokes on completion.
#[derive(Clone, Copy)]
pub struct Task {
    pub op: TaskOp,
    /// Queued for polling: set at spawn and by each resumption.
    pub runnable: bool,
    /// Invoked once when the operation completes.
    pub finish_marker: Option<WorkMarker>,
}

/// The resumption identity a task suspends under.
pub open spec fn task_waker(t: Task) -> WakerId {
    match t.op {
        TaskOp::Read(r) => r.waker,
        TaskOp::Write(w) => w.waker,
    }
}

/// Whether the task's operation has completed.
pub open spec fn task_completed(t: Task) -> bool {
    match t.op {
        TaskOp::Read(r) => r.state is Completed,
        TaskOp::Write(w) => w.state is Completed,
    }
}

/// How the scheduler's loop ended.
#[derive(Clone, Copy, Debug, PartialEq, Eq, Structural)]
pub enum RunOutcome {
    /// The termination marker was invoked by some task.
    Finished,
    /// The loop would halt for an interrupt, but the modeled hardware
    /// has no further activity to deliver.
    Stalled,
}

/// The cooperative scheduler: a small set of spawned tasks and the two
/// shared flags.
pub struct Executor {
    pub tasks: Vec<Task>,
    pub flags: SchedFlags,
}

impl Executor {
    pub fn new() -> (r: Self)
        ensures
            r.tasks@ =~= Seq::<Task>::empty(),
            !r.flags.work_pending,
            !r.flags.finished,
    {
        Executor { tasks: Vec::new(), flags: SchedFlags::new() }
    }

    /// Spawn a task; it is polled on the next pass.
    pub fn spawn(&mut self, op: TaskOp, finish_marker: Option<WorkMarker>)
        ensures
            final(self).tasks@ == old(self).tasks@.push(
                Task { op, runnable: true, finish_marker },
            ),
            final(self).flags == old(self).flags,
    {
        self.tasks.push(Task { op, runnable: true, finish_marker });
    }

    /// A resumption callback fires: mark every task suspended under
    /// this identity runnable again.  The pend signal itself is raised
    /// by the dispatcher.
    fn wake(&mut self, w: WakerId)
        ensures
            final(self).tasks@.len() == old(self).tasks@.len(),
            forall|i: int| 0 <= i < old(self).tasks@.len() ==> #[trigger] final(self).tasks@[i]
                == (if task_waker(old(self).tasks@[i]) == w {
                    Task { runnable: true, ..old(self).tasks@[i] }
                } else {
                    old(self).tasks@[i]
                }),
            final(self).flags == old(self).flags,
    {
        let n = self.tasks.len();
        let mut i: usize = 0;
        while i < n
            invariant
                n == self.tasks@.len(),
                i <= n,
                self.flags == old(self).flags,
                forall|j: int| i <= j < n ==> #[trigger] self.tasks@[j] == old(self).tasks@[j],
                forall|j: int| 0 <= j < i ==> #[trigger] self.tasks@[j]
                    == (if task_waker(old(self).tasks@[j]) == w {
                        Task { runnable: true, ..old(self).tasks@[j] }
                    } else {
                        old(self).tasks@[j]
                    }),
            decreases n - i,
        {
            let mut t = self.tasks[i];
            let tw = match t.op {
                TaskOp::Read(r) => r.waker,
                TaskOp::Write(wr) => wr.waker,
            };
            if tw == w {
                t.runnable = true;
                self.tasks.set(i, t);
            }
            i = i + 1;
        }
    }

    /// One polling pass: poll every runnable, not yet completed task
    /// once, each under the interrupt-free guard; a task that completes
    /// and carries the finish marker invokes it.  Polling alone never
    /// raises the pend signal, and never clears `finished`.
    fn poll_all(&mut self, uart: &mut AsyncNS16550a, mask: &mut IntrMaskingInfo, line: &mut IntrLine)
        requires
            !old(uart).inner.is_borrowed(),
            old(mask).nested_level == 0,
            old(line).enabled,
        ensures
            !final(uart).inner.is_borrowed(),
            final(mask).nested_level == 0,
            final(line).enabled,
            final(self).tasks@.len() == old(self).tasks@.len(),
            final(self).flags.work_pending == old(self).flags.work_pending,
            old(self).flags.finished ==> final(self).flags.finished,
            (forall|j: int| 0 <= j < old(self).tasks@.len() ==> (#[trigger] old(
                self,
            ).tasks@[j]).finish_marker is None) ==> final(self).flags.finished == old(
                self,
            ).flags.finished,
            forall|j: int| 0 <= j < old(self).tasks@.len()
                ==> (#[trigger] final(self).tasks@[j]).finish_marker
                == old(self).tasks@[j].finish_marker,
            final(self).flags.finished ==> (old(self).flags.finished || exists|j: int|
                0 <= j < final(self).tasks@.len() && #[trigger] task_completed(
                    final(self).tasks@[j],
                ) && final(self).tasks@[j].finish_marker is Some),
            forall|j: int| 0 <= j < old(self).tasks@.len() ==> (task_completed(
                #[trigger] old(self).tasks@[j],
            ) ==> task_completed(final(self).tasks@[j])),
    {
        let n = self.tasks.len();
        let mut i: usize = 0;
        while i < n
            invariant
                n == self.tasks@.len(),
                i <= n,
                !uart.inner.is_borrowed(),
                mask.nested_level == 0,
                line.enabled,
                self.flags.work_pending == old(self).flags.work_pending,
                old(self).flags.finished ==> self.flags.finished,
                (forall|j: int| 0 <= j < n ==> (#[trigger] old(self).tasks@[j]).finish_marker
                    is None) ==> self.flags.finished == old(self).flags.finished,
                forall|j: int| 0 <= j < n ==> (#[trigger] self.tasks@[j]).finish_marker == old(
                    self,
                ).tasks@[j].finish_marker,
                self.flags.finished ==> (old(self).flags.finished || exists|j: int|
                    0 <= j < n && #[trigger] task_completed(self.tasks@[j])
                        && self.tasks@[j].finish_marker is Some),
                forall|j: int| i <= j < n ==> #[trigger] self.tasks@[j] == old(self).tasks@[j],
                forall|j: int| 0 <= j < n ==> (task_completed(#[trigger] old(self).tasks@[j])
                    ==> task_completed(self.tasks@[j])),
            decreases n - i,
        {
            let ghost prev_tasks = self.tasks@;
            let ghost prev_finished = self.flags.finished;
            let mut t = self.tasks[i];
            let was_completed = match t.op {
                TaskOp::Read(r) => matches!(r.state, OpState::Completed),
                TaskOp::Write(w) => matches!(w.state, OpState::Completed),
            };
            if t.runnable && !was_completed {
                t.runnable = false;
                match t.op {
                    TaskOp::Read(mut rop) => {
                        let _ = rop.poll(uart, mask, line);
                        t.op = TaskOp::Read(rop);
                    },
                    TaskOp::Write(mut wop) => {
                        let _ = wop.poll(uart, mask, line);
                        t.op = TaskOp::Write(wop);
                    },
                }
                let now_completed = match t.op {
                    TaskOp::Read(r) => matches!(r.state, OpState::Completed),
                    TaskOp::Write(w) => matches!(w.state, OpState::Completed),
                };
                if now_completed {
                    if let Some(marker) = t.finish_marker {
                        marker.mark_finish(&mut self.flags);
                    }
                }
                self.tasks.set(i, t);
            } else if t.runnable {
                t.runnable = false;
                self.tasks.set(i, t);
            }
            proof {
                if self.flags.finished && !old(self).flags.finished {
                    if prev_finished {
                        // the witness from before this turn still stands:
                        // only index i was rewritten, and never from
                        // completed back to uncompleted
                        let j0 = choose|j: int|
                            0 <= j < n && #[trigger] task_completed(prev_tasks[j])
                                && prev_tasks[j].finish_marker is Some;
                        assert(task_completed(self.tasks@[j0])
                            && self.tasks@[j0].finish_marker is Some);
                    } else {
                        // the flag was raised this turn, by the marker of
                        // the task at i, which just completed
                        assert(task_completed(self.tasks@[i as int])
                            && self.tasks@[i as int].finish_marker is Some);
                    }
                }
            }
            i = i + 1;
        }
    }

    /// The scheduler's loop.  Each turn polls every runnable task, then
    /// decides: leave the loop iff the termination marker has been
    /// invoked; else, if a resumption fired meanwhile, clear the signal
    /// and poll again; else halt the processor until the next
    /// interrupt, which resumes a task and raises the signal.  The
    /// modeled hardware's activity during halts is the event sequence;
    /// a halt with no activity left ends the model run as `Stalled`.
    ///
    /// Returns the outcome and how many hardware events were consumed.
    /// The contract carries the termination law: the finished flag is
    /// never cleared; a run that starts finished returns at once; the
    /// outcome is `Finished` iff the flag is set at the end, and the
    /// flag can only have been set by the marker of a task that
    /// completed; `Stalled` means the whole event script was consumed
    /// with the marker never invoked.
    pub fn run(
        &mut self,
        uart: &mut AsyncNS16550a,
        mask: &mut IntrMaskingInfo,
        line: &mut IntrLine,
        events: &Vec<HwEvent>,
    ) -> (r: (RunOutcome, usize))
        requires
            !old(uart).inner.is_borrowed(),
            old(mask).nested_level == 0,
            old(line).enabled,
        ensures
            !final(uart).inner.is_borrowed(),
            final(mask).nested_level == 0,
            final(line).enabled,
            r.0 == RunOutcome::Finished <==> final(self).flags.finished,
            old(self).flags.finished ==> final(self).flags.finished,
            old(self).flags.finished ==> r.0 == RunOutcome::Finished,
            r.0 == RunOutcome::Finished ==> (old(self).flags.finished || exists|j: int|
                0 <= j < final(self).tasks@.len() && #[trigger] task_completed(
                    final(self).tasks@[j],
                ) && final(self).tasks@[j].finish_marker is Some),
            r.1 <= events@.len(),
            r.0 == RunOutcome::Stalled ==> r.1 == events@.len(),
            (!old(self).flags.finished && (forall|j: int| 0 <= j < old(self).tasks@.len()
                ==> (#[trigger] old(self).tasks@[j]).finish_marker is None)) ==> r.0
                == RunOutcome::Stalled,
    {
        let n_events = events.len();
        let mut idx: usize = 0;
        loop
            invariant
                !uart.inner.is_borrowed(),
                mask.nested_level == 0,
                line.enabled,
                n_events == events@.len(),
                idx <= n_events,
                old(self).flags.finished ==> self.flags.finished,
                self.flags.finished ==> (old(self).flags.finished || exists|j: int|
                    0 <= j < self.tasks@.len() && #[trigger] task_completed(self.tasks@[j])
                        && self.tasks@[j].finish_marker is Some),
                (!old(self).flags.finished && (forall|j: int| 0 <= j < old(self).tasks@.len()
                    ==> (#[trigger] old(self).tasks@[j]).finish_marker is None)) ==> {
                    &&& !self.flags.finished
                    &&& self.tasks@.len() == old(self).tasks@.len()
                    &&& forall|j: int| 0 <= j < self.tasks@.len() ==> (#[trigger] self.tasks@[j]).finish_marker is None
                },
            decreases
                n_events - idx,
                (if self.flags.work_pending {
                    1int
                } else {
                    0int
                }),
        {
            self.poll_all(uart, mask, line);
            let action = sched_decision(&mut self.flags);
            match action {
                SchedAction::Stop => {
                    return (RunOutcome::Finished, idx);
                },
                SchedAction::Repoll => {},
                SchedAction::Halt => {
                    if idx == n_events {
                        return (RunOutcome::Stalled, idx);
                    }
                    let ev = events[idx];
                    idx = idx + 1;
                    uart.hw_event(ev, mask, line);
                    let delivered = try_deliver_irq(uart, mask, line, &mut self.flags);
                    if let Some((woken_r, woken_w)) = delivered {
                        if let Some(w) = woken_r {
                            self.wake(w);
                        }
                        if let Some(w) = woken_w {
                            self.wake(w);
                        }
                    }
                },
            }
        }
    }
}

} // verus!
