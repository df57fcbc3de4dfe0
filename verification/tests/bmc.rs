use downloader::{uuid_hyphenated, BmcError, RunTask, TaskBmc, TaskError};

fn resolved() -> Result<(String, Vec<RunTask>), TaskError> {
    Ok((
        "a film".to_string(),
        vec![
            RunTask::new(
                "mp4".to_string(),
                "https://example.invalid/v".to_string(),
                "https://www.bilibili.com/".to_string(),
            ),
            RunTask::new(
                "aac".to_string(),
                "https://example.invalid/a".to_string(),
                "https://www.bilibili.com/".to_string(),
            ),
        ],
    ))
}

#[test]
fn create_test() {
    let mut task_bmc = TaskBmc::new();
    assert!(task_bmc
        .create("https://www.bilibili.com/video/BV1NN411F7HE", resolved())
        .is_ok());
    assert!(task_bmc.model.tasks.len() == 1);
    assert!(task_bmc.create("should fail", resolved()).is_err());
    assert!(task_bmc.model.tasks.len() == 1);
}

#[test]
fn created_job_first_progress_entry() {
    let mut bmc = TaskBmc::new();
    let id = bmc
        .create("https://www.bilibili.com/video/BV1NN411F7HE", resolved())
        .unwrap();
    let rows = bmc.progress().unwrap();
    assert_eq!(rows.len(), 1);
    let (title, finished, total, row_id, state) = rows[0].clone();
    assert_eq!(title, "a film");
    assert_eq!(finished, 0);
    assert_eq!(total, 0);
    assert_eq!(row_id, uuid_hyphenated(id));
    assert_eq!(state, "downloading");
}

#[test]
fn resolver_failure_registers_nothing() {
    let mut bmc = TaskBmc::new();
    let r = bmc.create(
        "https://www.bilibili.com/video/BV1NN411F7HE",
        Err(TaskError::StatusError),
    );
    assert!(r.is_err());
    assert_eq!(bmc.model.tasks.len(), 0);
}

#[test]
fn remove_unknown_id_is_not_found_and_changes_nothing() {
    let mut bmc = TaskBmc::new();
    let id_a = bmc
        .create("https://www.bilibili.com/video/BV1NN411F7HE", resolved())
        .unwrap();
    let id_b = bmc
        .create("https://www.bilibili.com/video/BV1EC4y1V7ho", resolved())
        .unwrap();
    let before = bmc.progress().unwrap();
    let unknown = id_a ^ id_b ^ 0x5a5a_5a5a;
    match bmc.remove(unknown) {
        Err(BmcError::TaskNotFound { id }) => assert_eq!(id, unknown),
        _ => panic!("removing an unknown id must be a not-found error"),
    }
    let after = bmc.progress().unwrap();
    assert_eq!(before, after);
    assert_eq!(bmc.model.tasks.len(), 2);
}

#[test]
fn remove_cancels_and_drops_the_entry() {
    let mut bmc = TaskBmc::new();
    let id_a = bmc
        .create("https://www.bilibili.com/video/BV1NN411F7HE", resolved())
        .unwrap();
    let id_b = bmc
        .create("https://www.bilibili.com/video/BV1EC4y1V7ho", resolved())
        .unwrap();
    assert!(bmc.remove(id_a).is_ok());
    assert_eq!(bmc.model.tasks.len(), 1);
    assert_eq!(bmc.model.tasks[0].id, id_b);
    match bmc.remove(id_a) {
        Err(BmcError::TaskNotFound { id }) => assert_eq!(id, id_a),
        _ => panic!("a removed id must no longer be found"),
    }
}

#[test]
fn bmc_test() {
    let mut task_bmc = TaskBmc::new();
    let id = task_bmc
        .create("https://www.bilibili.com/video/BV1NN411F7HE", resolved())
        .unwrap();
    assert!(task_bmc.pause(id).is_ok());
    assert_eq!(task_bmc.progress().unwrap()[0].4, "pausing");
    assert!(task_bmc.continue_(id).is_ok());
    assert_eq!(task_bmc.progress().unwrap()[0].4, "downloading");
}

#[test]
fn control_calls_on_unknown_ids_fail() {
    let mut bmc = TaskBmc::new();
    assert!(matches!(bmc.pause(7), Err(BmcError::TaskNotFound { id: 7 })));
    assert!(matches!(bmc.continue_(7), Err(BmcError::TaskNotFound { .. })));
    assert!(matches!(bmc.cancel(7), Err(BmcError::TaskNotFound { .. })));
}

#[test]
fn cancel_all_marks_every_task_cancelled() {
    let mut bmc = TaskBmc::new();
    bmc.create("https://www.bilibili.com/video/BV1NN411F7HE", resolved())
        .unwrap();
    bmc.create("https://www.bilibili.com/video/BV1EC4y1V7ho", resolved())
        .unwrap();
    bmc.cancel_all();
    for row in bmc.progress().unwrap() {
        assert_eq!(row.4, "cancelled");
    }
}

#[test]
fn uuid_strings_are_canonical() {
    assert_eq!(uuid_hyphenated(0), "00000000-0000-0000-0000-000000000000");
    assert_eq!(
        uuid_hyphenated(0x12345678_9abc_def0_1234_56789abcdef0),
        "12345678-9abc-def0-1234-56789abcdef0"
    );
    assert_eq!(uuid_hyphenated(u128::MAX), "ffffffff-ffff-ffff-ffff-ffffffffffff");
}
