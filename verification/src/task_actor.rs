//! The per-job download engine.
//!
//! One [`TaskActor`] owns the authoritative state of one job: the status
//! cell driven by control signals, the aggregate progress counters, and one
//! [`StreamFetcher`] per media stream.  The actor decides; the surrounding
//! runtime performs the HTTP requests and file appends it is told to make
//! and reports the results back.  Every transition re-reads the current
//! status, so control signals may arrive at any point between two windows.

use vstd::prelude::*;

verus! {

/// The byte window requested per ranged GET: 8 MiB.
pub const FETCH_WINDOW: u64 = 8388608;

/// How many seconds a parked fetch loop sleeps before re-checking the
/// status.  Pausing and resuming are polled, not signalled, so this is
/// the known latency bound on observing a pause or a resume.
pub const PAUSE_BACKOFF_SECS: u64 = 2;

/// A control signal applied to a job's status cell.
#[derive(Clone, Copy, PartialEq, Eq, Structural, Debug)]
pub enum Instrument {
    /// Resume issuing requests.
    Continue,
    /// Ask the fetch loops to park after their current window.
    TryPause,
    /// A fetch loop acknowledges that it has parked.
    Paused,
    /// Stop the job for good.
    Cancel,
    /// All streams are complete.
    Finish,
}

/// The authoritative state of one job.
#[derive(Clone, Copy, PartialEq, Eq, Structural, Debug)]
pub enum State {
    Downloading,
    Pausing,
    Paused,
    Cancelled,
    Finished,
}

/// How one signal moves the status cell.  `Cancelled` and `Finished` are
/// terminal: no signal leaves them.  A repeated `TryPause` on an already
/// parked job is a no-op, so pausing is idempotent.
pub open spec fn spec_trans(s: State, instrument: Instrument) -> State {
    if s == State::Cancelled || s == State::Finished {
        s
    } else {
        match instrument {
            Instrument::Continue => State::Downloading,
            Instrument::TryPause => if s == State::Paused {
                State::Paused
            } else {
                State::Pausing
            },
            Instrument::Paused => if s == State::Pausing {
                State::Paused
            } else {
                s
            },
            Instrument::Cancel => State::Cancelled,
            Instrument::Finish => State::Finished,
        }
    }
}

/// Law: once a job is cancelled or finished, no signal moves it again.
pub proof fn lemma_terminal_states_absorb(s: State, instrument: Instrument)
    ensures
        s == State::Cancelled || s == State::Finished ==> spec_trans(s, instrument) == s,
{
}

/// Law: requesting a pause twice in a row leaves the status cell exactly
/// where a single request leaves it.
pub proof fn lemma_pause_idempotent(s: State)
    ensures
        spec_trans(spec_trans(s, Instrument::TryPause), Instrument::TryPause) == spec_trans(
            s,
            Instrument::TryPause,
        ),
{
}

/// Law: cancelling twice in a row leaves the status cell exactly where a
/// single cancel leaves it.
pub proof fn lemma_cancel_idempotent(s: State)
    ensures
        spec_trans(spec_trans(s, Instrument::Cancel), Instrument::Cancel) == spec_trans(
            s,
            Instrument::Cancel,
        ),
{
}

/// Law: a cancel request moves every non-finished job to `Cancelled`.
pub proof fn lemma_cancel_reaches_cancelled(s: State)
    requires
        s != State::Finished,
    ensures
        spec_trans(s, Instrument::Cancel) == State::Cancelled,
{
}

/// Law: once a pause is requested, the fetch loop's acknowledgement
/// parks the job: the pause request yields `Pausing` (or keeps `Paused`),
/// and the loop's `Paused` signal then yields `Paused`.
pub proof fn lemma_pause_then_ack(s: State)
    requires
        s != State::Cancelled,
        s != State::Finished,
    ensures
        spec_trans(spec_trans(s, Instrument::TryPause), Instrument::Paused) == State::Paused,
{
}

/// The job's status cell.
pub struct TaskState {
    pub state: State,
}

impl TaskState {
    /// A fresh job starts downloading.
    pub fn new() -> (s: TaskState)
        ensures
            s.state == State::Downloading,
    {
        TaskState { state: State::Downloading }
    }

    /// The current state.
    pub fn now(&self) -> (r: State)
        ensures
            r == self.state,
    {
        self.state
    }

    /// Applies one control signal.
    pub fn trans(&mut self, instrument: Instrument)
        ensures
            final(self).state == spec_trans(old(self).state, instrument),
    {
        let s = self.state;
        if !matches!(s, State::Cancelled | State::Finished) {
            self.state = match instrument {
                Instrument::Continue => State::Downloading,
                Instrument::TryPause => if matches!(s, State::Paused) {
                    State::Paused
                } else {
                    State::Pausing
                },
                Instrument::Paused => if matches!(s, State::Pausing) {
                    State::Paused
                } else {
                    s
                },
                Instrument::Cancel => State::Cancelled,
                Instrument::Finish => State::Finished,
            };
        }
    }
}

/// The textual name of a state, as progress queries report it.
pub open spec fn spec_state_name(s: State) -> Seq<char> {
    match s {
        State::Downloading => "downloading"@,
        State::Pausing => "pausing"@,
        State::Paused => "paused"@,
        State::Cancelled => "cancelled"@,
        State::Finished => "finished"@,
    }
}

/// The textual name of a state.
pub fn state_name(s: State) -> (r: String)
    ensures
        r@ == spec_state_name(s),
{
    match s {
        State::Downloading => "downloading".to_owned(),
        State::Pausing => "pausing".to_owned(),
        State::Paused => "paused".to_owned(),
        State::Cancelled => "cancelled".to_owned(),
        State::Finished => "finished".to_owned(),
    }
}

/// One stream to fetch: the suffix of its temporary file, its source URL
/// and the referer to send with each request.  Immutable once created.
pub struct RunTask {
    pub suffix: String,
    pub url: String,
    pub referer: String,
}

impl RunTask {
    pub fn new(suffix: String, url: String, referer: String) -> (t: RunTask)
        ensures
            t.suffix == suffix,
            t.url == url,
            t.referer == referer,
    {
        RunTask { suffix, url, referer }
    }
}

/// How one stream's fetch ended.
#[derive(Clone, Copy, PartialEq, Eq, Structural, Debug)]
pub enum StreamOutcome {
    /// All bytes arrived.
    Success,
    /// The job was cancelled while the stream was running.
    Cancelled,
    /// The size probe or a window request failed.
    TransferError,
}

/// The per-stream fetch progress: the probed total, the bytes durably
/// appended so far, and the outcome once the stream has ended.
pub struct StreamFetcher {
    pub task: RunTask,
    pub probed: bool,
    pub total: u64,
    pub finished: u64,
    pub outcome: Option<StreamOutcome>,
}

impl StreamFetcher {
    /// Bytes never outrun the probed total, nothing moves before the
    /// probe, and success is only ever recorded once every byte arrived.
    pub open spec fn wf(&self) -> bool {
        &&& self.finished <= self.total
        &&& !self.probed ==> self.total == 0 && self.finished == 0
        &&& self.outcome == Some(StreamOutcome::Success) ==> self.finished == self.total
    }
}

/// What the fetch loop of one stream is told to do next.
#[derive(Clone, Copy, PartialEq, Eq, Structural, Debug)]
pub enum FetchStep {
    /// Issue one ranged GET for bytes `from..=to` of the stream.
    Fetch { from: u64, to: u64 },
    /// The job is parked: sleep the backoff interval and ask again.
    Backoff,
    /// The stream is over; its outcome says how.
    Stop,
}

/// Every stream of the actor has ended in success.
pub open spec fn all_success(streams: Seq<StreamFetcher>) -> bool {
    forall|i: int|
        0 <= i < streams.len() ==> streams[i].outcome == Some(StreamOutcome::Success)
}

/// Saturating addition on byte counters.
pub open spec fn sat_add(a: u64, b: u64) -> u64 {
    if a + b <= u64::MAX {
        (a + b) as u64
    } else {
        u64::MAX
    }
}

/// The state owned by one job's worker: status cell, aggregate counters,
/// the job's display name, and one fetcher per stream.
pub struct TaskActor {
    pub state: TaskState,
    pub total: u64,
    pub finished: u64,
    pub filename: Option<String>,
    pub streams: Vec<StreamFetcher>,
    pub assembly_started: bool,
}

impl TaskActor {
    /// Every fetcher is well-formed, and the job is `Finished` only once
    /// every stream has succeeded.
    pub open spec fn wf(&self) -> bool {
        &&& forall|i: int| 0 <= i < self.streams@.len() ==> self.streams@[i].wf()
        &&& self.state.state == State::Finished ==> all_success(self.streams@)
    }

    /// A fresh actor: downloading, no bytes, no streams.
    pub fn new() -> (a: TaskActor)
        ensures
            a.wf(),
            a.state.state == State::Downloading,
            a.total == 0,
            a.finished == 0,
            a.filename is None,
            a.streams@.len() == 0,
            !a.assembly_started,
    {
        TaskActor {
            state: TaskState::new(),
            total: 0,
            finished: 0,
            filename: None,
            streams: Vec::new(),
            assembly_started: false,
        }
    }

    /// Requests a pause; the fetch loops park after their current window.
    pub fn pause(&mut self)
        requires
            old(self).wf(),
        ensures
            final(self).wf(),
            final(self).state.state == spec_trans(old(self).state.state, Instrument::TryPause),
            final(self).total == old(self).total,
            final(self).finished == old(self).finished,
            final(self).filename == old(self).filename,
            final(self).streams == old(self).streams,
            final(self).assembly_started == old(self).assembly_started,
    {
        self.state.trans(Instrument::TryPause);
    }

    /// Resumes a paused or pausing job.
    pub fn continue_(&mut self)
        requires
            old(self).wf(),
        ensures
            final(self).wf(),
            final(self).state.state == spec_trans(old(self).state.state, Instrument::Continue),
            final(self).total == old(self).total,
            final(self).finished == old(self).finished,
            final(self).filename == old(self).filename,
            final(self).streams == old(self).streams,
            final(self).assembly_started == old(self).assembly_started,
    {
        self.state.trans(Instrument::Continue);
    }

    /// Cancels the job; every fetch loop observes this and stops.
    pub fn cancel(&mut self)
        requires
            old(self).wf(),
        ensures
            final(self).wf(),
            final(self).state.state == spec_trans(old(self).state.state, Instrument::Cancel),
            final(self).total == old(self).total,
            final(self).finished == old(self).finished,
            final(self).filename == old(self).filename,
            final(self).streams == old(self).streams,
            final(self).assembly_started == old(self).assembly_started,
    {
        self.state.trans(Instrument::Cancel);
    }

    /// Records the job's display name.
    pub fn set_filename(&mut self, name: String)
        requires
            old(self).wf(),
        ensures
            final(self).wf(),
            final(self).filename == Some(name),
            final(self).state == old(self).state,
            final(self).total == old(self).total,
            final(self).finished == old(self).finished,
            final(self).streams == old(self).streams,
            final(self).assembly_started == old(self).assembly_started,
    {
        self.filename = Some(name);
    }

    /// Registers one stream to fetch and returns its index.  Streams are
    /// registered before any of them completes, so never on a finished job.
    pub fn run_task(&mut self, task: RunTask) -> (i: usize)
        requires
            old(self).wf(),
            old(self).state.state != State::Finished,
        ensures
            final(self).wf(),
            i == old(self).streams@.len(),
            final(self).streams@.len() == old(self).streams@.len() + 1,
            final(self).streams@.take(i as int) == old(self).streams@,
            final(self).streams@[i as int].task == task,
            !final(self).streams@[i as int].probed,
            final(self).streams@[i as int].total == 0,
            final(self).streams@[i as int].finished == 0,
            final(self).streams@[i as int].outcome is None,
            final(self).state == old(self).state,
            final(self).total == old(self).total,
            final(self).finished == old(self).finished,
            final(self).filename == old(self).filename,
            final(self).assembly_started == old(self).assembly_started,
    {
        let i = self.streams.len();
        self.streams.push(
            StreamFetcher { task, probed: false, total: 0, finished: 0, outcome: None },
        );
        proof {
            assert(final(self).streams@.take(i as int) =~= old(self).streams@);
        }
        i
    }

    /// Records the result of stream `i`'s size probe.  `total` is the size
    /// read from the response's content-range header; `None` means the
    /// probe failed, which fails the stream with a transfer error and
    /// leaves every counter alone — no silent zero-size success.
    pub fn probe_result(&mut self, i: usize, total: Option<u64>)
        requires
            old(self).wf(),
            i < old(self).streams@.len(),
            !old(self).streams@[i as int].probed,
            old(self).streams@[i as int].outcome is None,
        ensures
            final(self).wf(),
            final(self).streams@.len() == old(self).streams@.len(),
            forall|j: int|
                0 <= j < old(self).streams@.len() && j != i ==> final(self).streams@[j] == old(
                    self,
                ).streams@[j],
            match total {
                Some(t) => {
                    &&& final(self).streams@[i as int].probed
                    &&& final(self).streams@[i as int].total == t
                    &&& final(self).streams@[i as int].finished == 0
                    &&& final(self).streams@[i as int].outcome is None
                    &&& final(self).total == sat_add(old(self).total, t)
                },
                None => {
                    &&& final(self).streams@[i as int] == (StreamFetcher {
                        outcome: Some(StreamOutcome::TransferError),
                        ..old(self).streams@[i as int]
                    })
                    &&& final(self).total == old(self).total
                },
            },
            final(self).streams@[i as int].task == old(self).streams@[i as int].task,
            final(self).state == old(self).state,
            final(self).finished == old(self).finished,
            final(self).filename == old(self).filename,
            final(self).assembly_started == old(self).assembly_started,
    {
        match total {
            Some(t) => {
                let mut s = StreamFetcher {
                    task: RunTask {
                        suffix: String::new(),
                        url: String::new(),
                        referer: String::new(),
                    },
                    probed: false,
                    total: 0,
                    finished: 0,
                    outcome: None,
                };
                core::mem::swap(&mut s, &mut self.streams[i]);
                s.probed = true;
                s.total = t;
                core::mem::swap(&mut s, &mut self.streams[i]);
                self.total = if self.total <= u64::MAX - t {
                    self.total + t
                } else {
                    u64::MAX
                };
            },
            None => {
                self.set_outcome(i, StreamOutcome::TransferError);
            },
        }
    }

    /// Decides what the fetch loop of stream `i` does next, re-reading the
    /// current status first.  While downloading it grants one window
    /// starting at the stream's acknowledged offset; when the job is parked
    /// it answers `Backoff` and the stream's bytes do not move; once the
    /// job is cancelled the stream ends with a `Cancelled` outcome and no
    /// further window is ever granted.  When the last stream completes and
    /// every stream succeeded, the job moves to `Finished`.
    pub fn next_step(&mut self, i: usize) -> (step: FetchStep)
        requires
            old(self).wf(),
            i < old(self).streams@.len(),
            old(self).streams@[i as int].outcome is None,
        ensures
            final(self).wf(),
            final(self).streams@.len() == old(self).streams@.len(),
            forall|j: int|
                0 <= j < old(self).streams@.len() && j != i ==> final(self).streams@[j] == old(
                    self,
                ).streams@[j],
            final(self).streams@[i as int].task == old(self).streams@[i as int].task,
            final(self).streams@[i as int].probed == old(self).streams@[i as int].probed,
            final(self).streams@[i as int].total == old(self).streams@[i as int].total,
            final(self).streams@[i as int].finished == old(self).streams@[i as int].finished,
            final(self).total == old(self).total,
            final(self).finished == old(self).finished,
            final(self).filename == old(self).filename,
            final(self).assembly_started == old(self).assembly_started,
            match old(self).state.state {
                State::Cancelled => {
                    &&& step == FetchStep::Stop
                    &&& final(self).streams@[i as int].outcome == Some(StreamOutcome::Cancelled)
                    &&& final(self).state == old(self).state
                },
                State::Downloading => {
                    if old(self).streams@[i as int].finished < old(
                        self,
                    ).streams@[i as int].total {
                        &&& step == (FetchStep::Fetch {
                            from: old(self).streams@[i as int].finished,
                            to: (spec_window_end(
                                old(self).streams@[i as int].finished,
                                old(self).streams@[i as int].total,
                            )) as u64,
                        })
                        &&& final(self).streams@[i as int].outcome is None
                        &&& final(self).state == old(self).state
                    } else {
                        &&& step == FetchStep::Stop
                        &&& final(self).streams@[i as int].outcome == Some(StreamOutcome::Success)
                        &&& final(self).state.state == if all_success(final(self).streams@) {
                            State::Finished
                        } else {
                            State::Downloading
                        }
                    }
                },
                _ => {
                    &&& step == FetchStep::Backoff
                    &&& final(self).streams@[i as int].outcome is None
                    &&& final(self).state.state == spec_trans(
                        old(self).state.state,
                        Instrument::Paused,
                    )
                },
            },
    {
        let s_total = self.streams[i].total;
        let s_finished = self.streams[i].finished;
        match self.state.now() {
            State::Cancelled => {
                self.set_outcome(i, StreamOutcome::Cancelled);
                FetchStep::Stop
            },
            State::Downloading => {
                if s_finished < s_total {
                    let to = if s_total - 1 - s_finished > FETCH_WINDOW {
                        s_finished + FETCH_WINDOW
                    } else {
                        s_total - 1
                    };
                    FetchStep::Fetch { from: s_finished, to }
                } else {
                    self.set_outcome(i, StreamOutcome::Success);
                    if self.check_all_success() {
                        self.state.trans(Instrument::Finish);
                    }
                    FetchStep::Stop
                }
            },
            _ => {
                self.state.trans(Instrument::Paused);
                FetchStep::Backoff
            },
        }
    }

    /// Records that `len` bytes of stream `i`'s current window were
    /// durably appended to its temporary file, and advances the stream and
    /// job counters by exactly those bytes, clamped to the stream's
    /// remaining total.  Both counters only ever grow.
    pub fn chunk_written(&mut self, i: usize, len: u64) -> (advance: u64)
        requires
            old(self).wf(),
            i < old(self).streams@.len(),
            old(self).streams@[i as int].outcome is None,
        ensures
            final(self).wf(),
            advance == vstd::math::min(
                len as int,
                old(self).streams@[i as int].total - old(self).streams@[i as int].finished,
            ),
            final(self).streams@.len() == old(self).streams@.len(),
            forall|j: int|
                0 <= j < old(self).streams@.len() && j != i ==> final(self).streams@[j] == old(
                    self,
                ).streams@[j],
            final(self).streams@[i as int] == (StreamFetcher {
                finished: (old(self).streams@[i as int].finished + advance) as u64,
                ..old(self).streams@[i as int]
            }),
            final(self).finished == sat_add(old(self).finished, advance),
            final(self).finished >= old(self).finished,
            final(self).streams@[i as int].finished >= old(self).streams@[i as int].finished,
            final(self).state == old(self).state,
            final(self).total == old(self).total,
            final(self).filename == old(self).filename,
            final(self).assembly_started == old(self).assembly_started,
    {
        let remaining = self.streams[i].total - self.streams[i].finished;
        let advance = if len < remaining {
            len
        } else {
            remaining
        };
        let new_finished = self.streams[i].finished + advance;
        let mut s = StreamFetcher {
            task: RunTask { suffix: String::new(), url: String::new(), referer: String::new() },
            probed: false,
            total: 0,
            finished: 0,
            outcome: None,
        };
        core::mem::swap(&mut s, &mut self.streams[i]);
        s.finished = new_finished;
        core::mem::swap(&mut s, &mut self.streams[i]);
        self.finished = if self.finished <= u64::MAX - advance {
            self.finished + advance
        } else {
            u64::MAX
        };
        advance
    }

    /// Fails stream `i` with a transfer error: a window request came back
    /// with a failing status or the connection broke mid-chunk.  The
    /// sibling streams and the job's counters are untouched; the job can
    /// no longer finish, so assembly is never triggered.
    pub fn stream_failed(&mut self, i: usize)
        requires
            old(self).wf(),
            i < old(self).streams@.len(),
            old(self).streams@[i as int].outcome is None,
        ensures
            final(self).wf(),
            final(self).streams@.len() == old(self).streams@.len(),
            forall|j: int|
                0 <= j < old(self).streams@.len() && j != i ==> final(self).streams@[j] == old(
                    self,
                ).streams@[j],
            final(self).streams@[i as int] == (StreamFetcher {
                outcome: Some(StreamOutcome::TransferError),
                ..old(self).streams@[i as int]
            }),
            final(self).state == old(self).state,
            final(self).total == old(self).total,
            final(self).finished == old(self).finished,
            final(self).filename == old(self).filename,
            final(self).assembly_started == old(self).assembly_started,
    {
        self.set_outcome(i, StreamOutcome::TransferError);
    }

    /// Hands out the one assembly trigger: true exactly when the job has
    /// finished and assembly has not been started yet.  A second call, or
    /// a call on an unfinished or failed job, returns false, so assembly
    /// runs at most once and only after every stream succeeded.
    pub fn take_assembly(&mut self) -> (b: bool)
        requires
            old(self).wf(),
        ensures
            final(self).wf(),
            b == (old(self).state.state == State::Finished && !old(self).assembly_started),
            b ==> all_success(old(self).streams@),
            final(self).assembly_started == (old(self).assembly_started || b),
            final(self).state == old(self).state,
            final(self).total == old(self).total,
            final(self).finished == old(self).finished,
            final(self).filename == old(self).filename,
            final(self).streams == old(self).streams,
    {
        let b = matches!(self.state.now(), State::Finished) && !self.assembly_started;
        if b {
            self.assembly_started = true;
        }
        b
    }

    /// A point-in-time progress snapshot: display name (or "unknown"),
    /// finished bytes, total bytes, and the textual state.  Reads
    /// already-published counters only.
    pub fn progress_query(&self) -> (r: (String, u64, u64, String))
        ensures
            r.0@ == match self.filename {
                Some(f) => f@,
                None => "unknown"@,
            },
            r.1 == self.finished,
            r.2 == self.total,
            r.3@ == spec_state_name(self.state.state),
    {
        let name = match &self.filename {
            Some(f) => f.clone(),
            None => "unknown".to_owned(),
        };
        (name, self.finished, self.total, state_name(self.state.now()))
    }

    /// Sets the outcome of stream `i`, leaving its other fields alone.
    fn set_outcome(&mut self, i: usize, outcome: StreamOutcome)
        requires
            old(self).wf(),
            i < old(self).streams@.len(),
        ensures
            final(self).streams@.len() == old(self).streams@.len(),
            forall|j: int|
                0 <= j < old(self).streams@.len() && j != i ==> final(self).streams@[j] == old(
                    self,
                ).streams@[j],
            final(self).streams@[i as int] == (StreamFetcher {
                outcome: Some(outcome),
                ..old(self).streams@[i as int]
            }),
            final(self).state == old(self).state,
            final(self).total == old(self).total,
            final(self).finished == old(self).finished,
            final(self).filename == old(self).filename,
            final(self).assembly_started == old(self).assembly_started,
    {
        let mut s = StreamFetcher {
            task: RunTask { suffix: String::new(), url: String::new(), referer: String::new() },
            probed: false,
            total: 0,
            finished: 0,
            outcome: None,
        };
        core::mem::swap(&mut s, &mut self.streams[i]);
        s.outcome = Some(outcome);
        core::mem::swap(&mut s, &mut self.streams[i]);
    }

    /// True when every stream has ended in success.
    fn check_all_success(&self) -> (b: bool)
        ensures
            b == all_success(self.streams@),
    {
        let mut j: usize = 0;
        while j < self.streams.len()
            invariant
                j <= self.streams@.len(),
                forall|k: int|
                    0 <= k < j ==> self.streams@[k].outcome == Some(StreamOutcome::Success),
            decreases self.streams@.len() - j,
        {
            if !matches!(self.streams[j].outcome, Some(StreamOutcome::Success)) {
                return false;
            }
            j = j + 1;
        }
        true
    }
}

/// The end of the window granted from offset `finished` of a stream of
/// `total` bytes: the last byte of the stream or of the fixed window,
/// whichever comes first.
pub open spec fn spec_window_end(finished: u64, total: u64) -> int {
    vstd::math::min(total as int - 1, finished as int + FETCH_WINDOW as int)
}

/// A control or query message for one job's worker, delivered through its
/// command channel and applied by [`TaskActor::handle`].
pub enum Command {
    /// Start fetching one stream.
    RunTask(RunTask),
    /// Ask the fetch loops to park.
    Pause,
    /// Resume a parked job.
    Continue_,
    /// Stop the job for good.
    Cancel,
    /// Ask for a progress snapshot.
    ProgressQuery,
    /// Record the job's display name.
    SetFilename(String),
}

/// What [`TaskActor::handle`] answers.
pub enum CommandReply {
    /// The control message was applied.
    Accepted,
    /// The stream was registered under this index.
    StreamStarted(usize),
    /// The snapshot: display name, finished bytes, total bytes, state.
    Progress(String, u64, u64, String),
}

impl TaskActor {
    /// Applies one command from the job's mailbox.  Control signals go
    /// through the status cell; `RunTask` registers a stream; a progress
    /// query answers from already-published counters and changes nothing.
    pub fn handle(&mut self, msg: Command) -> (r: CommandReply)
        requires
            old(self).wf(),
            msg is RunTask ==> old(self).state.state != State::Finished,
        ensures
            final(self).wf(),
            match msg {
                Command::RunTask(t) => {
                    &&& r == CommandReply::StreamStarted(old(self).streams@.len() as usize)
                    &&& final(self).streams@.len() == old(self).streams@.len() + 1
                    &&& final(self).streams@.take(old(self).streams@.len() as int) == old(
                        self,
                    ).streams@
                    &&& final(self).streams@.last() == (StreamFetcher {
                        task: t,
                        probed: false,
                        total: 0,
                        finished: 0,
                        outcome: None,
                    })
                    &&& final(self).state == old(self).state
                    &&& final(self).total == old(self).total
                    &&& final(self).finished == old(self).finished
                    &&& final(self).filename == old(self).filename
                },
                Command::Pause => {
                    &&& r is Accepted
                    &&& final(self).state.state == spec_trans(
                        old(self).state.state,
                        Instrument::TryPause,
                    )
                    &&& final(self).streams == old(self).streams
                    &&& final(self).total == old(self).total
                    &&& final(self).finished == old(self).finished
                    &&& final(self).filename == old(self).filename
                },
                Command::Continue_ => {
                    &&& r is Accepted
                    &&& final(self).state.state == spec_trans(
                        old(self).state.state,
                        Instrument::Continue,
                    )
                    &&& final(self).streams == old(self).streams
                    &&& final(self).total == old(self).total
                    &&& final(self).finished == old(self).finished
                    &&& final(self).filename == old(self).filename
                },
                Command::Cancel => {
                    &&& r is Accepted
                    &&& final(self).state.state == spec_trans(
                        old(self).state.state,
                        Instrument::Cancel,
                    )
                    &&& final(self).streams == old(self).streams
                    &&& final(self).total == old(self).total
                    &&& final(self).finished == old(self).finished
                    &&& final(self).filename == old(self).filename
                },
                Command::ProgressQuery => {
                    &&& *final(self) == *old(self)
                    &&& r matches CommandReply::Progress(name, finished, total, state) && name@
                        == (match old(self).filename {
                        Some(f) => f@,
                        None => "unknown"@,
                    }) && finished == old(self).finished && total == old(self).total && state@
                        == spec_state_name(old(self).state.state)
                },
                Command::SetFilename(name) => {
                    &&& r is Accepted
                    &&& final(self).filename == Some(name)
                    &&& final(self).state == old(self).state
                    &&& final(self).streams == old(self).streams
                    &&& final(self).total == old(self).total
                    &&& final(self).finished == old(self).finished
                },
            },
            final(self).assembly_started == old(self).assembly_started,
            final(self).finished >= old(self).finished,
    {
        match msg {
            Command::RunTask(t) => {
                let i = self.run_task(t);
                CommandReply::StreamStarted(i)
            },
            Command::Pause => {
                self.pause();
                CommandReply::Accepted
            },
            Command::Continue_ => {
                self.continue_();
                CommandReply::Accepted
            },
            Command::Cancel => {
                self.cancel();
                CommandReply::Accepted
            },
            Command::ProgressQuery => {
                let (name, finished, total, state) = self.progress_query();
                CommandReply::Progress(name, finished, total, state)
            },
            Command::SetFilename(name) => {
                self.set_filename(name);
                CommandReply::Accepted
            },
        }
    }
}

/// A decimal digit.
pub open spec fn spec_is_digit(c: char) -> bool {
    48 <= c as u32 <= 57
}

/// The value of one decimal digit.
pub open spec fn spec_digit_val(c: char) -> int {
    c as u32 - 48
}

/// Every character of `s` is a decimal digit.
pub open spec fn spec_all_digits(s: Seq<char>) -> bool {
    forall|i: int| 0 <= i < s.len() ==> spec_is_digit(#[trigger] s[i])
}

/// The number a digit string denotes.
pub open spec fn spec_dec_value(s: Seq<char>) -> int
    decreases s.len(),
{
    if s.len() == 0 {
        0
    } else {
        spec_dec_value(s.drop_last()) * 10 + spec_digit_val(s.last())
    }
}

/// What a decimal string parses to: its value when it is nonempty, all
/// digits, and fits; nothing otherwise.
pub open spec fn spec_parse_u64(s: Seq<char>) -> Option<u64> {
    if s.len() > 0 && spec_all_digits(s) && spec_dec_value(s) <= u64::MAX {
        Some(spec_dec_value(s) as u64)
    } else {
        None
    }
}

/// The suffix of `s` after its last '/', or all of `s` when it has none.
pub open spec fn spec_after_last_slash(s: Seq<char>) -> Seq<char>
    decreases s.len(),
{
    if s.len() == 0 {
        Seq::empty()
    } else if s.last() == '/' {
        Seq::empty()
    } else {
        spec_after_last_slash(s.drop_last()).push(s.last())
    }
}

/// The total size a content-range header value reports: the decimal number
/// after its last '/'.
pub open spec fn spec_content_range_total(s: Seq<char>) -> Option<u64> {
    spec_parse_u64(spec_after_last_slash(s))
}

proof fn lemma_after_last_slash(s: Seq<char>, start: int)
    requires
        0 <= start <= s.len(),
        forall|i: int| start <= i < s.len() ==> s[i] != '/',
        start > 0 ==> s[start - 1] == '/',
    ensures
        spec_after_last_slash(s) == s.subrange(start, s.len() as int),
    decreases s.len(),
{
    if start == s.len() {
        if s.len() > 0 && s.last() != '/' {
            assert(start > 0 && s[start - 1] == s.last());
        }
        assert(s.subrange(start, s.len() as int) =~= Seq::empty());
    } else {
        assert(s.last() != '/');
        lemma_after_last_slash(s.drop_last(), start);
        assert(s.drop_last().subrange(start, s.len() - 1).push(s.last()) =~= s.subrange(
            start,
            s.len() as int,
        ));
    }
}

proof fn lemma_dec_value_nonneg(s: Seq<char>)
    requires
        spec_all_digits(s),
    ensures
        spec_dec_value(s) >= 0,
    decreases s.len(),
{
    if s.len() > 0 {
        lemma_dec_value_nonneg(s.drop_last());
    }
}

proof fn lemma_dec_value_take_le(s: Seq<char>, i: int)
    requires
        spec_all_digits(s),
        0 <= i <= s.len(),
    ensures
        spec_dec_value(s.take(i)) <= spec_dec_value(s),
    decreases s.len() - i,
{
    if i < s.len() {
        lemma_dec_value_take_le(s, i + 1);
        assert(s.take(i + 1).drop_last() =~= s.take(i));
        assert(spec_all_digits(s.take(i))) by {
            assert(forall|j: int|
                0 <= j < i ==> #[trigger] s.take(i)[j] == s[j] && spec_is_digit(s[j]));
        }
        lemma_dec_value_nonneg(s.take(i));
        assert(spec_dec_value(s.take(i + 1)) == spec_dec_value(s.take(i)) * 10 + spec_digit_val(
            s[i],
        ));
    } else {
        assert(s.take(i) =~= s);
    }
}

/// Reads the total size out of a content-range header value: the decimal
/// number after the last '/' (e.g. 1234 out of "bytes 0-0/1234").  Answers
/// nothing when that suffix is empty, has a non-digit, or overflows.
pub fn parse_content_range(s: &str) -> (r: Option<u64>)
    ensures
        r == spec_content_range_total(s@),
{
    let n = s.unicode_len();
    let mut k: usize = n;
    let mut found = false;
    while k > 0 && !found
        invariant
            k <= n,
            n == s@.len(),
            forall|i: int| k <= i < n ==> s@[i] != '/',
            found ==> 0 < k && s@[k - 1] == '/',
        decreases (if found {
            0int
        } else {
            k + 1
        }),
    {
        if s.get_char(k - 1) == '/' {
            found = true;
        } else {
            k = k - 1;
        }
    }
    let start: usize = if found {
        k
    } else {
        0
    };
    proof {
        lemma_after_last_slash(s@, start as int);
    }
    let ghost suffix = s@.subrange(start as int, n as int);
    if start == n {
        return None;
    }
    let mut acc: u64 = 0;
    let mut i: usize = start;
    while i < n
        invariant
            start <= i <= n,
            n == s@.len(),
            suffix == s@.subrange(start as int, n as int),
            spec_after_last_slash(s@) == suffix,
            spec_all_digits(suffix.take(i - start)),
            acc == spec_dec_value(suffix.take(i - start)),
        decreases n - i,
    {
        let c = s.get_char(i);
        let cv = c as u32;
        proof {
            assert(suffix[i - start] == s@[i as int]);
        }
        if cv < 48 || cv > 57 {
            proof {
                assert(!spec_is_digit(suffix[i - start]));
                assert(!spec_all_digits(suffix));
            }
            return None;
        }
        let d = (cv - 48) as u64;
        proof {
            assert(spec_is_digit(suffix[i - start]));
            assert(spec_digit_val(suffix[i - start]) == d);
            assert(suffix.take(i - start + 1).drop_last() =~= suffix.take(i - start));
            assert(suffix.take(i - start + 1).last() == suffix[i - start]);
            assert(spec_dec_value(suffix.take(i - start + 1)) == acc * 10 + d);
            assert forall|j: int|
                0 <= j < i - start + 1 implies spec_is_digit(
                #[trigger] suffix.take(i - start + 1)[j],
            ) by {
                if j < i - start {
                    assert(suffix.take(i - start + 1)[j] == suffix.take(i - start)[j]);
                    assert(spec_is_digit(suffix.take(i - start)[j]));
                } else {
                    assert(suffix.take(i - start + 1)[j] == suffix[i - start]);
                }
            }
            assert(spec_all_digits(suffix.take(i - start + 1)));
        }
        let next = match acc.checked_mul(10) {
            Some(m) => m.checked_add(d),
            None => None,
        };
        match next {
            Some(v) => {
                acc = v;
            },
            None => {
                proof {
                    assert(spec_dec_value(suffix.take(i - start + 1)) > u64::MAX);
                    if spec_all_digits(suffix) {
                        lemma_dec_value_take_le(suffix, i - start + 1);
                    }
                    assert(spec_parse_u64(suffix) is None);
                }
                return None;
            },
        }
        i = i + 1;
    }
    proof {
        assert(suffix.take(n - start) =~= suffix);
    }
    Some(acc)
}

/// The character of one decimal digit value.
pub open spec fn spec_digit_char(d: int) -> char {
    if d == 0 {
        '0'
    } else if d == 1 {
        '1'
    } else if d == 2 {
        '2'
    } else if d == 3 {
        '3'
    } else if d == 4 {
        '4'
    } else if d == 5 {
        '5'
    } else if d == 6 {
        '6'
    } else if d == 7 {
        '7'
    } else if d == 8 {
        '8'
    } else {
        '9'
    }
}

/// The decimal digits of `n`, most significant first.
pub open spec fn spec_dec_digits(n: int) -> Seq<char>
    decreases n,
{
    if n < 10 {
        seq![spec_digit_char(n)]
    } else {
        spec_dec_digits(n / 10).push(spec_digit_char(n % 10))
    }
}

/// Appends the decimal digits of `n` to `s`.
pub fn push_dec(s: &mut String, n: u64)
    ensures
        final(s)@ == old(s)@ + spec_dec_digits(n as int),
    decreases n,
{
    if n >= 10 {
        push_dec(s, n / 10);
    }
    let d = n % 10;
    let lit: &str = match d {
        0 => "0",
        1 => "1",
        2 => "2",
        3 => "3",
        4 => "4",
        5 => "5",
        6 => "6",
        7 => "7",
        8 => "8",
        _ => "9",
    };
    proof {
        reveal_strlit("0");
        reveal_strlit("1");
        reveal_strlit("2");
        reveal_strlit("3");
        reveal_strlit("4");
        reveal_strlit("5");
        reveal_strlit("6");
        reveal_strlit("7");
        reveal_strlit("8");
        reveal_strlit("9");
        assert(lit@ =~= seq![spec_digit_char(d as int)]);
    }
    s.append(lit);
    proof {
        if n >= 10 {
            assert(spec_dec_digits(n as int) =~= spec_dec_digits(n as int / 10).push(
                spec_digit_char(n as int % 10),
            ));
        }
        assert(final(s)@ =~= old(s)@ + spec_dec_digits(n as int));
    }
}

/// Law: a finished job has fetched every stream completely — the job
/// reaches `Finished` only once each stream's finished bytes equal its
/// probed total.
pub proof fn lemma_finished_means_all_bytes(a: TaskActor)
    requires
        a.wf(),
        a.state.state == State::Finished,
    ensures
        forall|i: int|
            0 <= i < a.streams@.len() ==> (#[trigger] a.streams@[i]).finished
                == a.streams@[i].total,
{
    assert forall|i: int|
        0 <= i < a.streams@.len() implies (#[trigger] a.streams@[i]).finished
        == a.streams@[i].total by {
        assert(a.streams@[i].outcome == Some(StreamOutcome::Success));
        assert(a.streams@[i].wf());
    }
}

/// A response status a window request accepts: success, which for a
/// ranged GET is ordinarily partial content.
pub fn status_ok(code: u16) -> (r: bool)
    ensures
        r == (200 <= code < 300),
{
    200 <= code && code < 300
}

/// The value of the Range header that asks for bytes `from..=to`.
pub open spec fn spec_range_header(from: u64, to: u64) -> Seq<char> {
    "bytes="@ + spec_dec_digits(from as int) + "-"@ + spec_dec_digits(to as int)
}

/// Builds the Range header value for one granted window, e.g.
/// "bytes=0-8388607"; the probe that sizes a stream asks for "bytes=0-0".
pub fn range_header(from: u64, to: u64) -> (r: String)
    ensures
        r@ == spec_range_header(from, to),
{
    let mut r: String = "bytes=".to_owned();
    push_dec(&mut r, from);
    r.append("-");
    push_dec(&mut r, to);
    proof {
        assert(r@ =~= spec_range_header(from, to));
    }
    r
}

} // verus!
