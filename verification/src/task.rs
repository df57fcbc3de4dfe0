//! One user-requested download job.
//!
//! A [`Task`] pairs a process-unique identifier and the canonical job URL
//! with the job's [`TaskActor`].  Creating a task parses the URL and
//! classifies its host; only supported hosts yield a task.  The resolver
//! that turns the job URL into its concrete streams runs outside this
//! crate; [`Task::save`] registers what it returned.

use crate::config::{get_config, lookup, Config};
use crate::task_actor::{
    spec_state_name, spec_trans, Instrument, RunTask, State, StreamFetcher, TaskActor,
};
use vstd::prelude::*;

verus! {

/// The site a job URL belongs to.
#[derive(Clone, Copy, PartialEq, Eq, Structural, Debug)]
pub enum TaskType {
    BiliBili,
    Unknown,
}

/// What parsing a URL string yields: nothing when the string is not a
/// valid URL, otherwise its host component, which a URL may lack.  Both
/// are functions of the string alone.
pub uninterp spec fn url_host_of(s: Seq<char>) -> Option<Option<Seq<char>>>;

/// Relies on url::Url::parse for whether the string is a valid URL, and on
/// url::Url::host_str for the host component of the parsed URL.
#[verifier::external_body]
fn url_host(s: &str) -> (r: Option<Option<String>>)
    ensures
        r.deep_view() == url_host_of(s@),
{
    match url::Url::parse(s) {
        Ok(u) => Some(u.host_str().map(|h| h.to_string())),
        Err(_) => None,
    }
}

/// Relies on uuid::Uuid::new_v4 for a freshly drawn random 128-bit
/// identifier; nothing is promised of its value.
#[verifier::external_body]
fn new_uuid() -> u128 {
    uuid::Uuid::new_v4().as_u128()
}

/// An error of task creation or control.
#[derive(Debug)]
pub enum TaskError {
    /// The job URL did not parse; holds the rejected string.
    ParseUrl { url: String },
    /// A response came back with an unexpected status.
    StatusError,
    /// The URL parsed but its host is not a supported site.
    UnknownTaskType,
    /// A required configuration key is absent.
    ConfigNotFound,
}

/// The message a task error carries.
pub open spec fn spec_task_error_message(e: &TaskError) -> Seq<char> {
    match e {
        TaskError::ParseUrl { url } => "Could not parse url: "@ + url@,
        TaskError::StatusError => "StatusError"@,
        TaskError::UnknownTaskType => "UnknownTaskType"@,
        TaskError::ConfigNotFound => "ConfigNotFound"@,
    }
}

impl TaskError {
    /// The error rendered for display.
    pub fn message(&self) -> (r: String)
        ensures
            r@ == spec_task_error_message(self),
    {
        match self {
            TaskError::ParseUrl { url } => {
                let mut r: String = "Could not parse url: ".to_owned();
                r.append(url.as_str());
                r
            },
            TaskError::StatusError => "StatusError".to_owned(),
            TaskError::UnknownTaskType => "UnknownTaskType".to_owned(),
            TaskError::ConfigNotFound => "ConfigNotFound".to_owned(),
        }
    }
}

/// The host component as contracts speak of it.
pub open spec fn spec_host_view(h: Option<String>) -> Option<Seq<char>> {
    match h {
        Some(s) => Some(s@),
        None => None,
    }
}

/// The site a host belongs to.
pub open spec fn spec_task_type_of_host(h: Option<Seq<char>>) -> TaskType {
    if h == Some("bilibili.com"@) || h == Some("www.bilibili.com"@) {
        TaskType::BiliBili
    } else {
        TaskType::Unknown
    }
}

/// One download job: its identifier, canonical URL, parsed host, and the
/// actor that owns its download state.
pub struct Task {
    pub id: u128,
    pub url: String,
    pub host: Option<String>,
    pub actor: TaskActor,
}

impl Task {
    /// The actor is well-formed and the recorded host is the one the URL
    /// parses to.
    pub open spec fn wf(&self) -> bool {
        &&& self.actor.wf()
        &&& url_host_of(self.url@) == Some(spec_host_view(self.host))
    }

    /// The actor of a fresh task: downloading, nothing fetched.
    pub open spec fn spec_initial_actor(a: TaskActor) -> bool {
        &&& a.state.state == State::Downloading
        &&& a.total == 0
        &&& a.finished == 0
        &&& a.filename is None
        &&& a.streams@.len() == 0
        &&& !a.assembly_started
    }

    /// Creates a task for `url`: succeeds exactly when the string parses
    /// as a URL, and then starts out downloading with nothing fetched.
    pub fn new(url: &str) -> (r: Result<Task, TaskError>)
        ensures
            r is Ok <==> url_host_of(url@) is Some,
            r matches Ok(t) ==> t.wf() && t.url@ == url@ && Self::spec_initial_actor(t.actor),
            r matches Err(e) ==> e matches TaskError::ParseUrl { url: u } && u@ == url@,
    {
        match url_host(url) {
            Some(host) => Ok(
                Task { id: new_uuid(), url: url.to_owned(), host, actor: TaskActor::new() },
            ),
            None => Err(TaskError::ParseUrl { url: url.to_owned() }),
        }
    }

    /// The site the job URL belongs to.
    pub fn get_task_type(&self) -> (t: TaskType)
        ensures
            t == spec_task_type_of_host(spec_host_view(self.host)),
    {
        match &self.host {
            Some(h) => {
                let bili: String = "bilibili.com".to_owned();
                let www_bili: String = "www.bilibili.com".to_owned();
                if *h == bili || *h == www_bili {
                    TaskType::BiliBili
                } else {
                    TaskType::Unknown
                }
            },
            None => TaskType::Unknown,
        }
    }

    /// The referer header sent with every stream request of the job:
    /// fixed per site, an error for an unsupported site.
    pub fn referer(&self) -> (r: Result<String, TaskError>)
        ensures
            match spec_task_type_of_host(spec_host_view(self.host)) {
                TaskType::BiliBili => r matches Ok(s) && s@ == "https://www.bilibili.com/"@,
                TaskType::Unknown => r matches Err(e) && e is UnknownTaskType,
            },
    {
        match self.get_task_type() {
            TaskType::BiliBili => Ok("https://www.bilibili.com/".to_owned()),
            TaskType::Unknown => Err(TaskError::UnknownTaskType),
        }
    }

    /// The session cookie of the job's site, from the configuration.
    pub fn cookie(&self, cfg: &Config) -> (r: Result<String, TaskError>)
        ensures
            match spec_task_type_of_host(spec_host_view(self.host)) {
                TaskType::BiliBili => match lookup(cfg.entries@, "bili_cookie"@) {
                    Some(v) => r matches Ok(s) && s@ == v,
                    None => r matches Err(e) && e is ConfigNotFound,
                },
                TaskType::Unknown => r matches Err(e) && e is UnknownTaskType,
            },
    {
        match self.get_task_type() {
            TaskType::BiliBili => match get_config(cfg, "bili_cookie") {
                Some(v) => Ok(v),
                None => Err(TaskError::ConfigNotFound),
            },
            TaskType::Unknown => Err(TaskError::UnknownTaskType),
        }
    }

    /// The user agent to identify as, from the configuration.
    pub fn user_agent(&self, cfg: &Config) -> (r: Result<String, TaskError>)
        ensures
            match lookup(cfg.entries@, "user-agent"@) {
                Some(v) => r matches Ok(s) && s@ == v,
                None => r matches Err(e) && e is ConfigNotFound,
            },
    {
        match get_config(cfg, "user-agent") {
            Some(v) => Ok(v),
            None => Err(TaskError::ConfigNotFound),
        }
    }

    /// Records what the resolver returned for this job: the display name
    /// and one stream per descriptor, each registered with the actor and
    /// starting unprobed at zero bytes.
    pub fn save(&mut self, filename: String, infos: Vec<RunTask>)
        requires
            old(self).wf(),
            old(self).actor.state.state != State::Finished,
        ensures
            final(self).wf(),
            final(self).id == old(self).id,
            final(self).url == old(self).url,
            final(self).host == old(self).host,
            final(self).actor.filename == Some(filename),
            final(self).actor.state == old(self).actor.state,
            final(self).actor.total == old(self).actor.total,
            final(self).actor.finished == old(self).actor.finished,
            final(self).actor.assembly_started == old(self).actor.assembly_started,
            final(self).actor.streams@.len() == old(self).actor.streams@.len() + infos@.len(),
            final(self).actor.streams@.take(old(self).actor.streams@.len() as int) == old(
                self,
            ).actor.streams@,
            forall|j: int|
                0 <= j < infos@.len() ==> final(self).actor.streams@[old(
                    self,
                ).actor.streams@.len() + j] == (StreamFetcher {
                    task: infos@[j],
                    probed: false,
                    total: 0,
                    finished: 0,
                    outcome: None,
                }),
    {
        let ghost fname = filename;
        self.actor.set_filename(filename);
        let mut infos = infos;
        let ghost orig_streams = self.actor.streams@;
        let ghost orig_infos = infos@;
        let n = infos.len();
        let mut j: usize = 0;
        while j < n
            invariant
                j <= n,
                n == orig_infos.len(),
                infos@ == orig_infos.skip(j as int),
                self.wf(),
                self.actor.state == old(self).actor.state,
                old(self).actor.state.state != State::Finished,
                self.id == old(self).id,
                self.url == old(self).url,
                self.host == old(self).host,
                self.actor.filename == Some(fname),
                fname == filename,
                self.actor.total == old(self).actor.total,
                self.actor.finished == old(self).actor.finished,
                self.actor.assembly_started == old(self).actor.assembly_started,
                self.actor.streams@.len() == orig_streams.len() + j,
                self.actor.streams@.take(orig_streams.len() as int) == orig_streams,
                forall|k: int|
                    0 <= k < j ==> self.actor.streams@[orig_streams.len() + k] == (StreamFetcher {
                        task: orig_infos[k],
                        probed: false,
                        total: 0,
                        finished: 0,
                        outcome: None,
                    }),
            decreases n - j,
        {
            let info = infos.remove(0);
            let ghost prev = self.actor.streams@;
            self.actor.run_task(info);
            proof {
                assert(self.actor.streams@.take(orig_streams.len() as int) =~= prev.take(
                    orig_streams.len() as int,
                ));
                assert(infos@ =~= orig_infos.skip(j + 1));
            }
            j = j + 1;
        }
    }

    /// Requests a pause of this job's downloads.  Calling it on an already
    /// pausing or paused job changes nothing: pausing is idempotent.
    pub fn pause(&mut self) -> (r: Result<(), TaskError>)
        requires
            old(self).wf(),
        ensures
            final(self).wf(),
            r is Ok,
            final(self).actor.state.state == spec_trans(
                old(self).actor.state.state,
                Instrument::TryPause,
            ),
            final(self).id == old(self).id,
            final(self).url == old(self).url,
            final(self).host == old(self).host,
            final(self).actor.total == old(self).actor.total,
            final(self).actor.finished == old(self).actor.finished,
            final(self).actor.filename == old(self).actor.filename,
            final(self).actor.streams == old(self).actor.streams,
            final(self).actor.assembly_started == old(self).actor.assembly_started,
    {
        self.actor.pause();
        Ok(())
    }

    /// Resumes a paused or pausing job; the fetch loops pick up from their
    /// last acknowledged offsets.
    pub fn continue_(&mut self) -> (r: Result<(), TaskError>)
        requires
            old(self).wf(),
        ensures
            final(self).wf(),
            r is Ok,
            final(self).actor.state.state == spec_trans(
                old(self).actor.state.state,
                Instrument::Continue,
            ),
            final(self).id == old(self).id,
            final(self).url == old(self).url,
            final(self).host == old(self).host,
            final(self).actor.total == old(self).actor.total,
            final(self).actor.finished == old(self).actor.finished,
            final(self).actor.filename == old(self).actor.filename,
            final(self).actor.streams == old(self).actor.streams,
            final(self).actor.assembly_started == old(self).actor.assembly_started,
    {
        self.actor.continue_();
        Ok(())
    }

    /// Cancels this job.  Cancelling always succeeds, also on a job that
    /// is already cancelled: cancelling is idempotent.
    pub fn cancel(&mut self) -> (r: Result<(), TaskError>)
        requires
            old(self).wf(),
        ensures
            final(self).wf(),
            r is Ok,
            final(self).actor.state.state == spec_trans(
                old(self).actor.state.state,
                Instrument::Cancel,
            ),
            final(self).id == old(self).id,
            final(self).url == old(self).url,
            final(self).host == old(self).host,
            final(self).actor.total == old(self).actor.total,
            final(self).actor.finished == old(self).actor.finished,
            final(self).actor.filename == old(self).actor.filename,
            final(self).actor.streams == old(self).actor.streams,
            final(self).actor.assembly_started == old(self).actor.assembly_started,
    {
        self.actor.cancel();
        Ok(())
    }

    /// A progress snapshot of this job: display name, finished bytes,
    /// total bytes, textual state.
    pub fn progress_query(&self) -> (r: (String, u64, u64, String))
        ensures
            r.0@ == match self.actor.filename {
                Some(f) => f@,
                None => "unknown"@,
            },
            r.1 == self.actor.finished,
            r.2 == self.actor.total,
            r.3@ == spec_state_name(self.actor.state.state),
    {
        self.actor.progress_query()
    }
}

/// Creates the task for a job URL: succeeds exactly when the URL parses
/// and its host is a supported site.
pub fn new_task(url: &str) -> (r: Result<Task, TaskError>)
    ensures
        r is Ok <==> (url_host_of(url@) matches Some(h) && spec_task_type_of_host(h)
            == TaskType::BiliBili),
        r matches Ok(t) ==> t.wf() && t.url@ == url@ && Task::spec_initial_actor(t.actor)
            && spec_task_type_of_host(spec_host_view(t.host)) == TaskType::BiliBili,
        r matches Err(e) ==> (match url_host_of(url@) {
            Some(_) => e is UnknownTaskType,
            None => e matches TaskError::ParseUrl { url: u } && u@ == url@,
        }),
{
    let task = Task::new(url)?;
    match task.get_task_type() {
        TaskType::BiliBili => Ok(task),
        TaskType::Unknown => Err(TaskError::UnknownTaskType),
    }
}

} // verus!
