//! A media-download manager core: per-job download state machines with
//! resumable ranged transfers, a job registry with pause/continue/cancel
//! control, and a stream-assembly step that plans the final muxing call.
//!
//! Network and file I/O live outside this crate; the logic here works on
//! plain values (byte counts, header strings, file names) and is verified.

pub mod config;
pub mod task;
pub mod task_actor;
pub mod task_bmc;
pub mod utils;

pub use config::{config_init, get_config, Config, KeySource};
pub use task::{new_task, Task, TaskError, TaskType};
pub use task_actor::{
    parse_content_range, range_header, state_name, status_ok, Command, CommandReply, FetchStep,
    Instrument, RunTask, State, StreamFetcher, StreamOutcome, TaskActor, TaskState, FETCH_WINDOW,
    PAUSE_BACKOFF_SECS,
};
pub use task_bmc::{uuid_hyphenated, BmcError, Model, Process, TaskBmc};
pub use utils::{media_kind, MediaKind, MuxPlan, TempDirHandler, TempFile};
