use downloader::{
    parse_content_range, range_header, Command, CommandReply, FetchStep, RunTask, State,
    StreamOutcome, TaskActor, TempDirHandler,
};

fn mp4_stream() -> RunTask {
    RunTask::new(
        "mp4".to_string(),
        "https://example.invalid/v.m4s".to_string(),
        "https://www.bilibili.com/".to_string(),
    )
}

fn aac_stream() -> RunTask {
    RunTask::new(
        "aac".to_string(),
        "https://example.invalid/a.m4s".to_string(),
        "https://www.bilibili.com/".to_string(),
    )
}

/// Feeds the actor the whole granted window as one chunk and returns the
/// number of bytes advanced.
fn drain_window(actor: &mut TaskActor, i: usize, from: u64, to: u64) -> u64 {
    actor.chunk_written(i, to - from + 1)
}

#[test]
fn two_stream_job_reaches_finished_and_assembles_once() {
    // Two streams of 10,000,000 and 2,000,000 bytes with a fetch window of
    // 8,388,608 bytes: the first takes two windows, the second one.
    let mut actor = TaskActor::new();
    actor.set_filename("film".to_string());
    let a = actor.run_task(mp4_stream());
    let b = actor.run_task(aac_stream());
    actor.probe_result(a, Some(10_000_000));
    actor.probe_result(b, Some(2_000_000));
    assert_eq!(actor.total, 12_000_000);

    let mut temp_dir = TempDirHandler::new("film");

    // stream a, first window
    match actor.next_step(a) {
        FetchStep::Fetch { from, to } => {
            assert_eq!(from, 0);
            assert_eq!(to, 8_388_608);
            temp_dir.write("mp4", &[0u8; 64]);
            drain_window(&mut actor, a, from, to);
        }
        other => panic!("expected a window, got {:?}", other),
    }
    // stream b, its only window
    match actor.next_step(b) {
        FetchStep::Fetch { from, to } => {
            assert_eq!(from, 0);
            assert_eq!(to, 1_999_999);
            temp_dir.write("aac", &[0u8; 64]);
            drain_window(&mut actor, b, from, to);
        }
        other => panic!("expected a window, got {:?}", other),
    }
    // stream b is done, but the job must not be finished yet
    assert_eq!(actor.next_step(b), FetchStep::Stop);
    assert_ne!(actor.state.now(), State::Finished);
    assert!(!actor.take_assembly());

    // stream a, second window
    match actor.next_step(a) {
        FetchStep::Fetch { from, to } => {
            assert_eq!(from, 8_388_609);
            assert_eq!(to, 9_999_999);
            drain_window(&mut actor, a, from, to);
        }
        other => panic!("expected a window, got {:?}", other),
    }
    assert_eq!(actor.next_step(a), FetchStep::Stop);

    // both streams report finished == total, so the job is finished
    assert_eq!(actor.finished, actor.total);
    assert_eq!(actor.state.now(), State::Finished);

    // assembly is handed out exactly once, with both temp files as inputs
    assert!(actor.take_assembly());
    assert!(!actor.take_assembly());
    let plan = temp_dir.save("/downloads");
    assert_eq!(plan.inputs, vec!["film.mp4".to_string(), "film.aac".to_string()]);
    assert_eq!(
        plan.args,
        vec![
            "-y".to_string(),
            "-i".to_string(),
            "film.mp4".to_string(),
            "-i".to_string(),
            "film.aac".to_string(),
            "-c:v".to_string(),
            "copy".to_string(),
            "-c:a".to_string(),
            "copy".to_string(),
            "/downloads/film.mp4".to_string(),
        ]
    );
}

#[test]
fn probe_failure_fails_stream_and_skips_assembly() {
    let mut actor = TaskActor::new();
    let a = actor.run_task(mp4_stream());
    let b = actor.run_task(aac_stream());
    // stream a's probe finds no content-range header
    actor.probe_result(a, None);
    assert_eq!(actor.streams[a].outcome, Some(StreamOutcome::TransferError));
    assert_eq!(actor.total, 0);
    // the sibling stream is unaffected and completes on its own
    actor.probe_result(b, Some(2_000_000));
    match actor.next_step(b) {
        FetchStep::Fetch { from, to } => {
            actor.chunk_written(b, to - from + 1);
        }
        other => panic!("expected a window, got {:?}", other),
    }
    assert_eq!(actor.next_step(b), FetchStep::Stop);
    assert_eq!(actor.streams[b].outcome, Some(StreamOutcome::Success));
    // the job never finishes and assembly is never handed out
    assert_ne!(actor.state.now(), State::Finished);
    assert!(!actor.take_assembly());
}

#[test]
fn window_failure_fails_only_the_owning_stream() {
    let mut actor = TaskActor::new();
    let a = actor.run_task(mp4_stream());
    let b = actor.run_task(aac_stream());
    actor.probe_result(a, Some(100));
    actor.probe_result(b, Some(50));
    // the first window of stream a comes back with a failing status
    assert!(!downloader::status_ok(404));
    assert!(downloader::status_ok(206));
    assert!(downloader::status_ok(200));
    actor.stream_failed(a);
    assert_eq!(actor.streams[a].outcome, Some(StreamOutcome::TransferError));
    // the sibling still completes on its own
    match actor.next_step(b) {
        FetchStep::Fetch { from, to } => {
            actor.chunk_written(b, to - from + 1);
        }
        other => panic!("expected a window, got {:?}", other),
    }
    assert_eq!(actor.next_step(b), FetchStep::Stop);
    assert_eq!(actor.streams[b].outcome, Some(StreamOutcome::Success));
    // the job can no longer finish, and assembly is never handed out
    assert_ne!(actor.state.now(), State::Finished);
    assert!(!actor.take_assembly());
}

#[test]
fn pause_parks_the_fetch_loop_and_bytes_stop() {
    let mut actor = TaskActor::new();
    let a = actor.run_task(mp4_stream());
    actor.probe_result(a, Some(10_000_000));
    match actor.next_step(a) {
        FetchStep::Fetch { from, to } => {
            actor.chunk_written(a, to - from + 1);
        }
        other => panic!("expected a window, got {:?}", other),
    }
    let before = actor.finished;
    actor.pause();
    assert_eq!(actor.state.now(), State::Pausing);
    // the loop observes the pause between windows and parks
    assert_eq!(actor.next_step(a), FetchStep::Backoff);
    assert_eq!(actor.state.now(), State::Paused);
    // while paused the loop only backs off and finished stays put
    assert_eq!(actor.next_step(a), FetchStep::Backoff);
    assert_eq!(actor.next_step(a), FetchStep::Backoff);
    assert_eq!(actor.finished, before);
}

#[test]
fn continue_resumes_from_last_offset_and_never_rolls_back() {
    let mut actor = TaskActor::new();
    let a = actor.run_task(mp4_stream());
    actor.probe_result(a, Some(10_000_000));
    match actor.next_step(a) {
        FetchStep::Fetch { from, to } => {
            actor.chunk_written(a, to - from + 1);
        }
        other => panic!("expected a window, got {:?}", other),
    }
    let fetched = actor.finished;
    actor.pause();
    assert_eq!(actor.next_step(a), FetchStep::Backoff);
    actor.continue_();
    assert_eq!(actor.state.now(), State::Downloading);
    match actor.next_step(a) {
        FetchStep::Fetch { from, to } => {
            assert_eq!(from, fetched);
            assert_eq!(to, 9_999_999);
        }
        other => panic!("expected a window, got {:?}", other),
    }
    assert!(actor.finished >= fetched);
}

#[test]
fn cancel_resolves_streams_as_cancelled_and_stops_bytes() {
    let mut actor = TaskActor::new();
    let a = actor.run_task(mp4_stream());
    actor.probe_result(a, Some(10_000_000));
    match actor.next_step(a) {
        FetchStep::Fetch { from, to } => {
            actor.chunk_written(a, to - from + 1);
        }
        other => panic!("expected a window, got {:?}", other),
    }
    let before = actor.finished;
    actor.cancel();
    assert_eq!(actor.state.now(), State::Cancelled);
    // the loop observes the cancel, gets no further window, and the
    // stream's result resolves as cancelled
    assert_eq!(actor.next_step(a), FetchStep::Stop);
    assert_eq!(actor.streams[a].outcome, Some(StreamOutcome::Cancelled));
    assert_eq!(actor.finished, before);
    // cancelling again changes nothing
    actor.cancel();
    assert_eq!(actor.state.now(), State::Cancelled);
    assert!(!actor.take_assembly());
}

#[test]
fn command_mailbox_dispatches() {
    let mut actor = TaskActor::new();
    match actor.handle(Command::SetFilename("clip".to_string())) {
        CommandReply::Accepted => {}
        other => panic!("unexpected reply {:?}", reply_name(&other)),
    }
    match actor.handle(Command::RunTask(mp4_stream())) {
        CommandReply::StreamStarted(i) => assert_eq!(i, 0),
        _ => panic!("expected a stream index"),
    }
    actor.handle(Command::Pause);
    match actor.handle(Command::ProgressQuery) {
        CommandReply::Progress(name, finished, total, state) => {
            assert_eq!(name, "clip");
            assert_eq!(finished, 0);
            assert_eq!(total, 0);
            assert_eq!(state, "pausing");
        }
        _ => panic!("expected a progress reply"),
    }
    actor.handle(Command::Cancel);
    match actor.handle(Command::ProgressQuery) {
        CommandReply::Progress(_, _, _, state) => assert_eq!(state, "cancelled"),
        _ => panic!("expected a progress reply"),
    }
}

fn reply_name(r: &CommandReply) -> &'static str {
    match r {
        CommandReply::Accepted => "accepted",
        CommandReply::StreamStarted(_) => "stream started",
        CommandReply::Progress(_, _, _, _) => "progress",
    }
}

#[test]
fn content_range_totals_parse() {
    assert_eq!(parse_content_range("bytes 0-0/12345"), Some(12345));
    assert_eq!(parse_content_range("bytes 0-0/10000000"), Some(10_000_000));
    assert_eq!(parse_content_range("12345"), Some(12345));
    assert_eq!(parse_content_range("bytes 0-0/*"), None);
    assert_eq!(parse_content_range("bytes 0-0/"), None);
    assert_eq!(parse_content_range(""), None);
    assert_eq!(parse_content_range("bytes 0-0/18446744073709551615"), Some(u64::MAX));
    assert_eq!(parse_content_range("bytes 0-0/18446744073709551616"), None);
    assert_eq!(parse_content_range("bytes 0-0/99999999999999999999999"), None);
}

#[test]
fn range_headers_format() {
    assert_eq!(range_header(0, 0), "bytes=0-0");
    assert_eq!(range_header(0, 8_388_608), "bytes=0-8388608");
    assert_eq!(range_header(8_388_609, 9_999_999), "bytes=8388609-9999999");
}
