//! The registry of live download jobs.
//!
//! A [`TaskBmc`] owns every live [`Task`], keyed by identifier.  Creation
//! registers a task only once the resolver has succeeded; control calls
//! are routed by identifier and fail with a not-found error for an unknown
//! one, leaving every other entry untouched; removal cancels the task's
//! actor before the entry is dropped, so an in-flight fetch is told to
//! stop rather than being abandoned.

use crate::task::{new_task, spec_task_type_of_host, Task, TaskError, TaskType};
use crate::task_actor::{
    spec_state_name, spec_trans, Instrument, RunTask, State, StreamFetcher, TaskActor,
};
use vstd::prelude::*;

verus! {

/// An error of the registry.
#[derive(Debug)]
pub enum BmcError {
    /// Task creation failed; holds the underlying task error.
    NewTask { source: TaskError },
    /// No live task has this identifier.
    TaskNotFound { id: u128 },
}

/// One progress row: title, finished bytes, total bytes, identifier,
/// state.
pub type Process = (String, u64, u64, String, String);

/// The live tasks.
pub struct Model {
    pub tasks: Vec<Task>,
}

impl Model {
    pub fn new() -> (m: Model)
        ensures
            m.tasks@.len() == 0,
    {
        Model { tasks: Vec::new() }
    }
}

/// The hexadecimal digit of one nibble value.
pub open spec fn spec_hex_char(d: u128) -> char {
    if d == 0 {
        '0'
    } else if d == 1 {
        '1'
    } else if d == 2 {
        '2'
    } else if d == 3 {
        '3'
    } else if d == 4 {
        '4'
    } else if d == 5 {
        '5'
    } else if d == 6 {
        '6'
    } else if d == 7 {
        '7'
    } else if d == 8 {
        '8'
    } else if d == 9 {
        '9'
    } else if d == 10 {
        'a'
    } else if d == 11 {
        'b'
    } else if d == 12 {
        'c'
    } else if d == 13 {
        'd'
    } else if d == 14 {
        'e'
    } else {
        'f'
    }
}

/// Nibble `i` of an identifier, most significant first.
pub open spec fn spec_nibble(id: u128, i: int) -> u128 {
    (id >> ((((31 - i) * 4)) as u128)) & 0xf
}

/// The first `k` nibbles of the identifier's canonical hyphenated form:
/// 32 lower-case hexadecimal digits in groups of 8, 4, 4, 4 and 12.
pub open spec fn spec_uuid_prefix(id: u128, k: int) -> Seq<char>
    decreases k,
{
    if k <= 0 {
        Seq::empty()
    } else {
        let rest = spec_uuid_prefix(id, k - 1);
        let with_hyphen = if k - 1 == 8 || k - 1 == 12 || k - 1 == 16 || k - 1 == 20 {
            rest.push('-')
        } else {
            rest
        };
        with_hyphen.push(spec_hex_char(spec_nibble(id, k - 1)))
    }
}

/// The canonical hyphenated form of an identifier.
pub open spec fn spec_uuid_string(id: u128) -> Seq<char> {
    spec_uuid_prefix(id, 32)
}

/// Renders an identifier in its canonical hyphenated form, e.g.
/// "00000000-0000-0000-0000-000000000000" for zero.
pub fn uuid_hyphenated(id: u128) -> (r: String)
    ensures
        r@ == spec_uuid_string(id),
{
    let mut r = String::new();
    let mut k: usize = 0;
    while k < 32
        invariant
            k <= 32,
            r@ == spec_uuid_prefix(id, k as int),
        decreases 32 - k,
    {
        if k == 8 || k == 12 || k == 16 || k == 20 {
            proof {
                reveal_strlit("-");
            }
            r.append("-");
        }
        let shift: u128 = ((31 - k) as u128) * 4;
        let d: u128 = (id >> shift) & 0xf;
        let lit: &str = if d == 0 {
            "0"
        } else if d == 1 {
            "1"
        } else if d == 2 {
            "2"
        } else if d == 3 {
            "3"
        } else if d == 4 {
            "4"
        } else if d == 5 {
            "5"
        } else if d == 6 {
            "6"
        } else if d == 7 {
            "7"
        } else if d == 8 {
            "8"
        } else if d == 9 {
            "9"
        } else if d == 10 {
            "a"
        } else if d == 11 {
            "b"
        } else if d == 12 {
            "c"
        } else if d == 13 {
            "d"
        } else if d == 14 {
            "e"
        } else {
            "f"
        };
        proof {
            reveal_strlit("0");
            reveal_strlit("1");
            reveal_strlit("2");
            reveal_strlit("3");
            reveal_strlit("4");
            reveal_strlit("5");
            reveal_strlit("6");
            reveal_strlit("7");
            reveal_strlit("8");
            reveal_strlit("9");
            reveal_strlit("a");
            reveal_strlit("b");
            reveal_strlit("c");
            reveal_strlit("d");
            reveal_strlit("e");
            reveal_strlit("f");
            assert(d == spec_nibble(id, k as int));
            assert(d < 16) by (bit_vector)
                requires
                    d == (id >> shift) & 0xf,
            ;
            assert(lit@ =~= seq![spec_hex_char(d)]);
        }
        r.append(lit);
        proof {
            assert(r@ =~= spec_uuid_prefix(id, k + 1));
        }
        k = k + 1;
    }
    r
}

/// The index of the first live task with this identifier.
pub open spec fn spec_find_task(tasks: Seq<Task>, id: u128) -> Option<int>
    decreases tasks.len(),
{
    if tasks.len() == 0 {
        None
    } else if tasks[0].id == id {
        Some(0int)
    } else {
        match spec_find_task(tasks.skip(1), id) {
            Some(i) => Some(i + 1),
            None => None,
        }
    }
}

proof fn lemma_find_task_step(tasks: Seq<Task>, id: u128, j: int)
    requires
        0 <= j <= tasks.len(),
        forall|k: int| 0 <= k < j ==> tasks[k].id != id,
    ensures
        spec_find_task(tasks, id) == match spec_find_task(tasks.skip(j), id) {
            Some(i) => Some(i + j),
            None => None::<int>,
        },
    decreases j,
{
    if j > 0 {
        lemma_find_task_step(tasks, id, j - 1);
        assert(tasks.skip(j - 1).len() > 0);
        assert(tasks.skip(j - 1)[0] == tasks[j - 1]);
        assert(tasks.skip(j - 1).skip(1) =~= tasks.skip(j));
    } else {
        assert(tasks.skip(0) =~= tasks);
    }
}

/// How a progress snapshot renders one task: title (or "unknown"),
/// finished bytes, total bytes, hyphenated identifier, textual state.
pub open spec fn spec_progress_row(t: Task) -> (Seq<char>, u64, u64, Seq<char>, Seq<char>) {
    (
        match t.actor.filename {
            Some(f) => f@,
            None => "unknown"@,
        },
        t.actor.finished,
        t.actor.total,
        spec_uuid_string(t.id),
        spec_state_name(t.actor.state.state),
    )
}

/// Law: a job that `create` just registered — counters zero, state
/// `Downloading` — shows zero finished bytes, zero total bytes and the
/// `downloading` state in any progress snapshot.
pub proof fn lemma_created_job_first_progress(t: Task)
    requires
        t.actor.finished == 0,
        t.actor.total == 0,
        t.actor.state.state == State::Downloading,
    ensures
        spec_progress_row(t).1 == 0,
        spec_progress_row(t).2 == 0,
        spec_progress_row(t).4 == "downloading"@,
{
}

/// The registry: owns the set of live tasks and routes control calls.
pub struct TaskBmc {
    pub model: Model,
}

impl TaskBmc {
    /// Every live task is well-formed.
    pub open spec fn wf(&self) -> bool {
        forall|i: int| 0 <= i < self.model.tasks@.len() ==> (#[trigger] self.model.tasks@[i]).wf()
    }

    /// An empty registry.
    pub fn new() -> (b: TaskBmc)
        ensures
            b.wf(),
            b.model.tasks@.len() == 0,
    {
        TaskBmc { model: Model::new() }
    }

    /// The index of the first live task with this identifier.
    fn find(&self, id: u128) -> (r: Option<usize>)
        ensures
            match r {
                Some(i) => spec_find_task(self.model.tasks@, id) == Some(i as int) && i
                    < self.model.tasks@.len() && self.model.tasks@[i as int].id == id,
                None => spec_find_task(self.model.tasks@, id) is None,
            },
    {
        let mut j: usize = 0;
        while j < self.model.tasks.len()
            invariant
                j <= self.model.tasks@.len(),
                forall|k: int| 0 <= k < j ==> self.model.tasks@[k].id != id,
            decreases self.model.tasks@.len() - j,
        {
            if self.model.tasks[j].id == id {
                proof {
                    lemma_find_task_step(self.model.tasks@, id, j as int);
                    assert(self.model.tasks@.skip(j as int)[0] == self.model.tasks@[j as int]);
                }
                return Some(j);
            }
            j = j + 1;
        }
        proof {
            lemma_find_task_step(self.model.tasks@, id, j as int);
            assert(self.model.tasks@.skip(j as int).len() == 0);
        }
        None
    }

    /// Registers one job.  The caller hands in the resolver's outcome for
    /// `url`; on any failure — unparsable URL, unsupported host, resolver
    /// error — nothing is registered and the registry is unchanged.  On
    /// success the new task starts downloading with nothing fetched, named
    /// by the resolved title, with one stream per returned descriptor.
    pub fn create(&mut self, url: &str, resolution: Result<(String, Vec<RunTask>), TaskError>) -> (r:
        Result<u128, BmcError>)
        requires
            old(self).wf(),
        ensures
            final(self).wf(),
            r is Ok <==> (crate::task::url_host_of(url@) matches Some(h)
                && spec_task_type_of_host(h) == TaskType::BiliBili && resolution is Ok),
            r is Err ==> *final(self) == *old(self) && (r matches Err(e) && e is NewTask),
            r matches Ok(id) ==> {
                &&& final(self).model.tasks@.len() == old(self).model.tasks@.len() + 1
                &&& final(self).model.tasks@.take(old(self).model.tasks@.len() as int) == old(
                    self,
                ).model.tasks@
                &&& {
                    let t = final(self).model.tasks@.last();
                    let res = resolution->Ok_0;
                    &&& t.id == id
                    &&& t.wf()
                    &&& t.url@ == url@
                    &&& t.actor.state.state == State::Downloading
                    &&& t.actor.total == 0
                    &&& t.actor.finished == 0
                    &&& t.actor.filename == Some(res.0)
                    &&& !t.actor.assembly_started
                    &&& t.actor.streams@.len() == res.1@.len()
                    &&& forall|j: int|
                        0 <= j < res.1@.len() ==> t.actor.streams@[j] == (StreamFetcher {
                            task: res.1@[j],
                            probed: false,
                            total: 0,
                            finished: 0,
                            outcome: None,
                        })
                }
            },
    {
        let task = new_task(url);
        match task {
            Err(e) => Err(BmcError::NewTask { source: e }),
            Ok(mut task) => match resolution {
                Err(e) => Err(BmcError::NewTask { source: e }),
                Ok((title, infos)) => {
                    task.save(title, infos);
                    let id = task.id;
                    self.model.tasks.push(task);
                    proof {
                        assert(final(self).model.tasks@.take(old(self).model.tasks@.len() as int)
                            =~= old(self).model.tasks@);
                        assert(final(self).model.tasks@.last().actor.streams@.take(0) =~= Seq::<
                            StreamFetcher,
                        >::empty());
                    }
                    Ok(id)
                },
            },
        }
    }

    /// Removes the job with this identifier.  An unknown identifier is a
    /// not-found error and the registry — every other entry included — is
    /// left exactly as it was.  Otherwise the task's actor is cancelled
    /// first and the entry then dropped, swapping the last entry into its
    /// place.
    pub fn remove(&mut self, id: u128) -> (r: Result<(), BmcError>)
        requires
            old(self).wf(),
        ensures
            final(self).wf(),
            match spec_find_task(old(self).model.tasks@, id) {
                None => {
                    &&& r matches Err(e) && e == (BmcError::TaskNotFound { id })
                    &&& *final(self) == *old(self)
                },
                Some(i) => {
                    &&& r is Ok
                    &&& final(self).model.tasks@ == old(self).model.tasks@.update(
                        i,
                        old(self).model.tasks@.last(),
                    ).drop_last()
                },
            },
    {
        match self.find(id) {
            None => Err(BmcError::TaskNotFound { id }),
            Some(i) => {
                let mut t = self.swap_out(i);
                let _ = t.cancel();
                self.swap_in(i, t);
                let _ = self.model.tasks.swap_remove(i);
                Ok(())
            },
        }
    }

    /// A point-in-time snapshot over all live tasks: title, finished and
    /// total bytes, identifier, and textual state, one row per task.  It
    /// reads already-published counters and never fails.
    pub fn progress(&self) -> (r: Result<Vec<Process>, BmcError>)
        requires
            self.wf(),
        ensures
            r matches Ok(v) && {
                let tasks = self.model.tasks@;
                &&& v@.len() == tasks.len()
                &&& forall|i: int|
                    0 <= i < tasks.len() ==> {
                        let row = #[trigger] v@[i];
                        let m = spec_progress_row(tasks[i]);
                        row.0@ == m.0 && row.1 == m.1 && row.2 == m.2 && row.3@ == m.3 && row.4@
                            == m.4
                    }
            },
    {
        let mut rows: Vec<Process> = Vec::new();
        let mut i: usize = 0;
        while i < self.model.tasks.len()
            invariant
                i <= self.model.tasks@.len(),
                rows@.len() == i,
                forall|j: int|
                    0 <= j < i ==> {
                        let row = #[trigger] rows@[j];
                        let tasks = self.model.tasks@;
                        &&& row.0@ == match tasks[j].actor.filename {
                            Some(f) => f@,
                            None => "unknown"@,
                        }
                        &&& row.1 == tasks[j].actor.finished
                        &&& row.2 == tasks[j].actor.total
                        &&& row.3@ == spec_uuid_string(tasks[j].id)
                        &&& row.4@ == spec_state_name(tasks[j].actor.state.state)
                    },
            decreases self.model.tasks@.len() - i,
        {
            let (title, finished, total, state) = self.model.tasks[i].progress_query();
            let id_str = uuid_hyphenated(self.model.tasks[i].id);
            rows.push((title, finished, total, id_str, state));
            i = i + 1;
        }
        Ok(rows)
    }

    /// Cancels the job with this identifier; unknown identifiers are a
    /// not-found error and change nothing.
    pub fn cancel(&mut self, id: u128) -> (r: Result<(), BmcError>)
        requires
            old(self).wf(),
        ensures
            final(self).wf(),
            final(self).spec_control_post(old(self), id, r, Instrument::Cancel),
    {
        match self.find(id) {
            None => Err(BmcError::TaskNotFound { id }),
            Some(i) => {
                let mut t = self.swap_out(i);
                let _ = t.cancel();
                self.swap_in(i, t);
                Ok(())
            },
        }
    }

    /// Requests a pause of the job with this identifier; unknown
    /// identifiers are a not-found error and change nothing.
    pub fn pause(&mut self, id: u128) -> (r: Result<(), BmcError>)
        requires
            old(self).wf(),
        ensures
            final(self).wf(),
            final(self).spec_control_post(old(self), id, r, Instrument::TryPause),
    {
        match self.find(id) {
            None => Err(BmcError::TaskNotFound { id }),
            Some(i) => {
                let mut t = self.swap_out(i);
                let _ = t.pause();
                self.swap_in(i, t);
                Ok(())
            },
        }
    }

    /// Resumes the job with this identifier; unknown identifiers are a
    /// not-found error and change nothing.
    pub fn continue_(&mut self, id: u128) -> (r: Result<(), BmcError>)
        requires
            old(self).wf(),
        ensures
            final(self).wf(),
            final(self).spec_control_post(old(self), id, r, Instrument::Continue),
    {
        match self.find(id) {
            None => Err(BmcError::TaskNotFound { id }),
            Some(i) => {
                let mut t = self.swap_out(i);
                let _ = t.continue_();
                self.swap_in(i, t);
                Ok(())
            },
        }
    }

    /// What a routed control call leaves behind: not-found and untouched
    /// for an unknown id; otherwise the signal applied to exactly the
    /// first task with that id, every other entry unchanged.
    pub open spec fn spec_control_post(
        self,
        pre: &TaskBmc,
        id: u128,
        r: Result<(), BmcError>,
        instrument: Instrument,
    ) -> bool {
        match spec_find_task(pre.model.tasks@, id) {
            None => {
                &&& r matches Err(e) && e == (BmcError::TaskNotFound { id })
                &&& self == *pre
            },
            Some(i) => {
                &&& r is Ok
                &&& self.model.tasks@.len() == pre.model.tasks@.len()
                &&& forall|j: int|
                    0 <= j < pre.model.tasks@.len() && j != i ==> self.model.tasks@[j]
                        == pre.model.tasks@[j]
                &&& {
                    let t0 = pre.model.tasks@[i];
                    let t1 = self.model.tasks@[i];
                    &&& t1.id == t0.id
                    &&& t1.url == t0.url
                    &&& t1.host == t0.host
                    &&& t1.actor.state.state == spec_trans(t0.actor.state.state, instrument)
                    &&& t1.actor.total == t0.actor.total
                    &&& t1.actor.finished == t0.actor.finished
                    &&& t1.actor.filename == t0.actor.filename
                    &&& t1.actor.streams == t0.actor.streams
                    &&& t1.actor.assembly_started == t0.actor.assembly_started
                }
            },
        }
    }

    /// Cancels every live task, as the registry's teardown does before the
    /// background worker is joined.
    pub fn cancel_all(&mut self)
        requires
            old(self).wf(),
        ensures
            final(self).wf(),
            final(self).model.tasks@.len() == old(self).model.tasks@.len(),
            forall|j: int|
                0 <= j < old(self).model.tasks@.len() ==> {
                    let t0 = old(self).model.tasks@[j];
                    let t1 = #[trigger] final(self).model.tasks@[j];
                    &&& t1.id == t0.id
                    &&& t1.url == t0.url
                    &&& t1.host == t0.host
                    &&& t1.actor.state.state == spec_trans(t0.actor.state.state, Instrument::Cancel)
                    &&& t1.actor.total == t0.actor.total
                    &&& t1.actor.finished == t0.actor.finished
                    &&& t1.actor.filename == t0.actor.filename
                    &&& t1.actor.streams == t0.actor.streams
                    &&& t1.actor.assembly_started == t0.actor.assembly_started
                },
    {
        let mut i: usize = 0;
        while i < self.model.tasks.len()
            invariant
                i <= self.model.tasks@.len(),
                self.wf(),
                self.model.tasks@.len() == old(self).model.tasks@.len(),
                forall|j: int|
                    i <= j < old(self).model.tasks@.len() ==> #[trigger] self.model.tasks@[j]
                        == old(self).model.tasks@[j],
                forall|j: int|
                    0 <= j < i ==> {
                        let t0 = old(self).model.tasks@[j];
                        let t1 = #[trigger] self.model.tasks@[j];
                        &&& t1.id == t0.id
                        &&& t1.url == t0.url
                        &&& t1.host == t0.host
                        &&& t1.actor.state.state == spec_trans(
                            t0.actor.state.state,
                            Instrument::Cancel,
                        )
                        &&& t1.actor.total == t0.actor.total
                        &&& t1.actor.finished == t0.actor.finished
                        &&& t1.actor.filename == t0.actor.filename
                        &&& t1.actor.streams == t0.actor.streams
                        &&& t1.actor.assembly_started == t0.actor.assembly_started
                    },
            decreases self.model.tasks@.len() - i,
        {
            let mut t = self.swap_out(i);
            let _ = t.cancel();
            self.swap_in(i, t);
            i = i + 1;
        }
    }

    /// Takes the task at `i` out of the registry, leaving a placeholder.
    fn swap_out(&mut self, i: usize) -> (t: Task)
        requires
            i < old(self).model.tasks@.len(),
        ensures
            t == old(self).model.tasks@[i as int],
            final(self).model.tasks@ == old(self).model.tasks@.update(
                i as int,
                final(self).model.tasks@[i as int],
            ),
            final(self).model.tasks@.len() == old(self).model.tasks@.len(),
    {
        let mut t = Task { id: 0, url: String::new(), host: None, actor: TaskActor::new() };
        core::mem::swap(&mut t, &mut self.model.tasks[i]);
        proof {
            assert(final(self).model.tasks@ =~= old(self).model.tasks@.update(
                i as int,
                final(self).model.tasks@[i as int],
            ));
        }
        t
    }

    /// Puts a task back at `i`.
    fn swap_in(&mut self, i: usize, t: Task)
        requires
            i < old(self).model.tasks@.len(),
        ensures
            final(self).model.tasks@ == old(self).model.tasks@.update(i as int, t),
    {
        self.model.tasks[i] = t;
    }
}

} // verus!
