//! The job queue of a device that takes one job at a time.
//!
//! The queue owns the order of the jobs and the life cycle of its device's
//! worker. Whoever holds the device asks the queue what to do next and tells
//! it how each step ended.

use std::collections::VecDeque;
use vstd::prelude::*;

verus! {

/// Where the worker of a device stands in its life cycle.
#[derive(Debug, Clone, Copy, PartialEq, Eq, Structural)]
pub enum Phase {
    /// The device is not set up.
    Uninitialized,
    /// The device is being set up.
    Ready,
    /// Jobs are taken and applied, one after the other.
    Serving,
    /// The device was lost; the worker is to start over.
    Failed,
}

/// What the stream of a device reports when a read or a write fails, as
/// far as it tells whether the device is still there.
#[derive(Debug, Clone, Copy, PartialEq, Eq, Structural)]
pub enum StreamFault {
    /// The stream is not connected.
    NotConnected,
    /// The other end of the stream was closed.
    BrokenPipe,
    /// The connection was aborted by the other end.
    ConnectionAborted,
    /// The connection was reset by the other end.
    ConnectionReset,
    /// The device was not found.
    NotFound,
    /// Any other fault.
    Other,
}

impl StreamFault {
    /// Whether the fault says that the device is gone.
    pub open spec fn loses_link(&self) -> bool {
        !(self is Other)
    }
}

/// An error of a device.
#[derive(Debug, Clone, PartialEq, Eq)]
pub enum DeviceError {
    /// One job or capture failed; the device is still there.
    Transient(String),
    /// The link to the device is lost.
    LinkLost(String),
}

impl DeviceError {
    /// The error that a fault of the device's stream stands for, with the
    /// words that came with it: the link is lost where the fault says that
    /// the device is gone, and the failure is passing otherwise.
    pub fn of(fault: StreamFault, words: String) -> (e: DeviceError)
        ensures
            e == if fault.loses_link() {
                DeviceError::LinkLost(words)
            } else {
                DeviceError::Transient(words)
            },
    {
        match fault {
            StreamFault::Other => DeviceError::Transient(words),
            _ => DeviceError::LinkLost(words),
        }
    }

    /// Whether the error calls for the worker to start over.
    pub open spec fn is_fatal_spec(&self) -> bool {
        self is LinkLost
    }

    /// Whether the error calls for the worker to start over.
    pub fn is_fatal(&self) -> (r: bool)
        ensures
            r == self.is_fatal_spec(),
    {
        match self {
            DeviceError::Transient(_) => false,
            DeviceError::LinkLost(_) => true,
        }
    }

    /// The words that came with the error.
    pub fn message(&self) -> (r: &str)
        ensures
            r@ == match self {
                DeviceError::Transient(words) => words@,
                DeviceError::LinkLost(words) => words@,
            },
    {
        match self {
            DeviceError::Transient(words) => words.as_str(),
            DeviceError::LinkLost(words) => words.as_str(),
        }
    }
}

/// A job queue in contracts: its phase, the jobs that wait, oldest first,
/// and whether a job is being applied.
pub struct QueueState<T> {
    pub phase: Phase,
    pub pending: Seq<T>,
    pub busy: bool,
}

impl<T> QueueState<T> {
    /// A queue before anything happened.
    pub open spec fn initial() -> Self {
        QueueState { phase: Phase::Uninitialized, pending: Seq::empty(), busy: false }
    }

    /// The queue after `job` joined it: the job waits behind all that wait.
    pub open spec fn submit(self, job: T) -> Self {
        QueueState { pending: self.pending.push(job), ..self }
    }

    /// The queue after its worker started to set the device up.
    pub open spec fn start(self) -> Self {
        if self.phase is Uninitialized {
            QueueState { phase: Phase::Ready, ..self }
        } else {
            self
        }
    }

    /// The queue after the set-up ended. Any failure of the set-up is fatal.
    pub open spec fn set_up_done(self, ok: bool) -> Self {
        if self.phase is Ready {
            if ok {
                QueueState { phase: Phase::Serving, ..self }
            } else {
                self.fail()
            }
        } else {
            self
        }
    }

    /// The queue after the device was lost: the jobs that waited are dropped.
    pub open spec fn fail(self) -> Self {
        QueueState { phase: Phase::Failed, pending: Seq::empty(), busy: false }
    }

    /// Whether a job may be handed to the device: the worker is serving, the
    /// device is free, and a job waits.
    pub open spec fn can_take(self) -> bool {
        self.phase is Serving && !self.busy && self.pending.len() > 0
    }

    /// The job that is handed to the device next, if one may be.
    pub open spec fn next(self) -> Option<T> {
        if self.can_take() {
            Some(self.pending[0])
        } else {
            None
        }
    }

    /// The queue after the next job was handed to the device, if one may be.
    pub open spec fn take(self) -> Self {
        if self.can_take() {
            QueueState { pending: self.pending.drop_first(), busy: true, ..self }
        } else {
            self
        }
    }

    /// The queue after the device ended the job it had. Only a fatal error
    /// changes more than that the device is free again.
    pub open spec fn job_done(self, fatal: bool) -> Self {
        if !self.busy {
            self
        } else if fatal {
            self.fail()
        } else {
            QueueState { busy: false, ..self }
        }
    }

    /// Whether the end of the stream of jobs stops the worker: it serves, the
    /// device is free and nothing waits.
    pub open spec fn stops_at_end(self) -> bool {
        self.phase is Serving && !self.busy && self.pending.len() == 0
    }

    /// The queue after its producers were found gone.
    pub open spec fn closed(self) -> Self {
        if self.stops_at_end() {
            self.fail()
        } else {
            self
        }
    }

    /// The queue after its failed worker started over.
    pub open spec fn restart(self) -> Self {
        if self.phase is Failed {
            QueueState { phase: Phase::Uninitialized, ..self }
        } else {
            self
        }
    }

    /// The queue after `n` jobs were taken and ended without a fatal error.
    pub open spec fn after_rounds(self, n: nat) -> Self
        decreases n,
    {
        if n == 0 {
            self
        } else {
            self.after_rounds((n - 1) as nat).take().job_done(false)
        }
    }
}

/// Jobs leave the queue in the order in which they joined it: from a serving
/// queue with a free device, the job handed out in round `k` is the one that
/// was `k`-th in line, and after `n` rounds exactly the first `n` are gone.
pub proof fn lemma_jobs_leave_in_order<T>(s: QueueState<T>, n: nat)
    requires
        s.phase is Serving,
        !s.busy,
        n <= s.pending.len(),
    ensures
        s.after_rounds(n).phase is Serving,
        !s.after_rounds(n).busy,
        s.after_rounds(n).pending == s.pending.skip(n as int),
        forall|k: nat| k < n ==> (#[trigger] s.after_rounds(k)).next() == Some(s.pending[k as int]),
    decreases n,
{
    if n == 0 {
        assert(s.pending.skip(0) == s.pending);
    } else {
        let m = (n - 1) as nat;
        lemma_jobs_leave_in_order(s, m);
        let before = s.after_rounds(m);
        assert(before.can_take());
        assert(before.pending.drop_first() == s.pending.skip(n as int));
        assert(before.next() == Some(s.pending[m as int]));
        assert forall|k: nat| k < n implies (#[trigger] s.after_rounds(k)).next() == Some(
            s.pending[k as int],
        ) by {
            if k < m {
            } else {
                assert(k == m);
            }
        }
    }
}

/// A job that joins the queue is handed out after all that waited before it.
pub proof fn lemma_late_job_waits<T>(s: QueueState<T>, job: T, n: nat)
    requires
        s.phase is Serving,
        !s.busy,
        n == s.pending.len(),
    ensures
        forall|k: nat| k < n ==> (#[trigger] s.submit(job).after_rounds(k)).next() == Some(
            s.pending[k as int],
        ),
        s.submit(job).after_rounds(n).next() == Some(job),
{
    let t = s.submit(job);
    lemma_jobs_leave_in_order(t, n);
    assert(t.after_rounds(n).pending == seq![job]);
}

/// While the device has a job, no other is handed to it.
pub proof fn lemma_one_job_at_a_time<T>(s: QueueState<T>)
    requires
        s.busy,
    ensures
        s.next() is None,
        s.take() == s,
{
}

/// The job queue of one device.
pub struct JobQueue<T> {
    phase: Phase,
    pending: VecDeque<T>,
    busy: bool,
}

impl<T> View for JobQueue<T> {
    type V = QueueState<T>;

    closed spec fn view(&self) -> QueueState<T> {
        QueueState { phase: self.phase, pending: self.pending@, busy: self.busy }
    }
}

impl<T> JobQueue<T> {
    /// An empty queue whose device is not set up.
    pub fn new() -> (q: JobQueue<T>)
        ensures
            q@ == QueueState::<T>::initial(),
    {
        JobQueue { phase: Phase::Uninitialized, pending: VecDeque::new(), busy: false }
    }

    /// Where the worker stands.
    pub fn phase(&self) -> (p: Phase)
        ensures
            p == self@.phase,
    {
        self.phase
    }

    /// Whether the device has a job.
    pub fn is_busy(&self) -> (b: bool)
        ensures
            b == self@.busy,
    {
        self.busy
    }

    /// How many jobs wait.
    pub fn len(&self) -> (n: usize)
        ensures
            n == self@.pending.len(),
    {
        self.pending.len()
    }

    /// Puts `job` at the end of the queue. This succeeds in every phase.
    pub fn submit(&mut self, job: T)
        ensures
            final(self)@ == old(self)@.submit(job),
    {
        self.pending.push_back(job);
    }

    /// The worker starts: where the device is not set up, it is to be set up
    /// now, and the result says so.
    pub fn start(&mut self) -> (set_up: bool)
        ensures
            final(self)@ == old(self)@.start(),
            set_up == (old(self)@.phase is Uninitialized),
    {
        match self.phase {
            Phase::Uninitialized => {
                self.phase = Phase::Ready;
                true
            },
            _ => false,
        }
    }

    /// The set-up of the device ended with `result`.
    pub fn set_up_done(&mut self, result: Result<(), DeviceError>)
        ensures
            final(self)@ == old(self)@.set_up_done(result is Ok),
    {
        match self.phase {
            Phase::Ready => {
                if result.is_ok() {
                    self.phase = Phase::Serving;
                } else {
                    self.phase = Phase::Failed;
                    self.pending.clear();
                    self.busy = false;
                }
            },
            _ => {},
        }
    }

    /// Hands out the job to apply next: the oldest that waits, where the
    /// worker is serving and the device is free.
    pub fn next_job(&mut self) -> (job: Option<T>)
        ensures
            job == old(self)@.next(),
            final(self)@ == old(self)@.take(),
    {
        match self.phase {
            Phase::Serving => {
                if self.busy {
                    None
                } else {
                    let job = self.pending.pop_front();
                    if job.is_some() {
                        self.busy = true;
                    }
                    assert(self.pending@ == old(self).pending@.drop_first() || job is None);
                    job
                }
            },
            _ => None,
        }
    }

    /// The device ended the job it had, with `result`. An error is fatal
    /// only where the link to the device is lost.
    pub fn job_done(&mut self, result: Result<(), DeviceError>)
        ensures
            final(self)@ == old(self)@.job_done(result matches Err(e) && e.is_fatal_spec()),
    {
        if self.busy {
            let fatal = match &result {
                Ok(_) => false,
                Err(e) => e.is_fatal(),
            };
            if fatal {
                self.phase = Phase::Failed;
                self.pending.clear();
            }
            self.busy = false;
        }
    }

    /// No producer is left. A serving worker with nothing to do stops over
    /// this, to start over; the result says whether it does.
    pub fn closed(&mut self) -> (stopped: bool)
        ensures
            final(self)@ == old(self)@.closed(),
            stopped == old(self)@.stops_at_end(),
    {
        match self.phase {
            Phase::Serving => {
                if !self.busy && self.pending.len() == 0 {
                    self.phase = Phase::Failed;
                    assert(self.pending@ == Seq::<T>::empty());
                    true
                } else {
                    false
                }
            },
            _ => false,
        }
    }

    /// The failed worker starts over.
    pub fn restart(&mut self)
        ensures
            final(self)@ == old(self)@.restart(),
    {
        match self.phase {
            Phase::Failed => {
                self.phase = Phase::Uninitialized;
            },
            _ => {},
        }
    }
}

} // verus!
