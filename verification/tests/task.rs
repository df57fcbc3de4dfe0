use downloader::{new_task, RunTask, Task, TaskError, TaskType};

#[test]
fn new_task_test() {
    assert!(Task::new("http://localhost:3000").is_ok());
    assert!(Task::new("https://www.bilibili.com").is_ok());
    let url = "example.com";
    let ret = Task::new(url);
    assert!(ret.is_err(), "wrong url parsed incorrectly: {}", url);
    if let Err(e) = ret {
        assert_eq!(e.message(), format!("Could not parse url: {url}"));
    };
}

#[test]
fn get_task_type_test() {
    let task = Task::new("https://bilibili.com").unwrap();
    assert_eq!(task.get_task_type(), TaskType::BiliBili);
    let task = Task::new("https://www.bilibili.com/video/BV1NN411F7HE").unwrap();
    assert_eq!(task.get_task_type(), TaskType::BiliBili);
    let task = Task::new("https://example.com/video").unwrap();
    assert_eq!(task.get_task_type(), TaskType::Unknown);
}

#[test]
fn new_task_rejects_unsupported_hosts() {
    match new_task("https://example.com/video") {
        Err(TaskError::UnknownTaskType) => {}
        _ => panic!("an unsupported host must be rejected"),
    }
    match new_task("not a url") {
        Err(TaskError::ParseUrl { url }) => assert_eq!(url, "not a url"),
        _ => panic!("an unparsable url must be rejected"),
    }
    assert!(new_task("https://www.bilibili.com/video/BV1NN411F7HE").is_ok());
}

#[test]
fn referer_is_fixed_per_site() {
    let task = new_task("https://www.bilibili.com/video/BV1NN411F7HE").unwrap();
    assert_eq!(task.referer().unwrap(), "https://www.bilibili.com/");
    let other = Task::new("https://example.com/x").unwrap();
    assert!(other.referer().is_err());
}

#[test]
fn task_save_registers_streams_and_title() {
    let mut task = new_task("https://www.bilibili.com/video/BV1NN411F7HE").unwrap();
    let infos = vec![
        RunTask::new(
            "mp4".to_string(),
            "https://example.invalid/v".to_string(),
            "https://www.bilibili.com/".to_string(),
        ),
        RunTask::new(
            "aac".to_string(),
            "https://example.invalid/a".to_string(),
            "https://www.bilibili.com/".to_string(),
        ),
    ];
    task.save("a film".to_string(), infos);
    let (title, finished, total, state) = task.progress_query();
    assert_eq!(title, "a film");
    assert_eq!(finished, 0);
    assert_eq!(total, 0);
    assert_eq!(state, "downloading");
    assert_eq!(task.actor.streams.len(), 2);
    assert_eq!(task.actor.streams[0].task.suffix, "mp4");
    assert_eq!(task.actor.streams[1].task.suffix, "aac");
}

#[test]
fn config_lookup_through_task() {
    let cfg = downloader::config_init();
    let task = new_task("https://www.bilibili.com/video/BV1NN411F7HE").unwrap();
    assert_eq!(task.cookie(&cfg).unwrap(), "");
    assert_eq!(task.user_agent(&cfg).unwrap(), downloader::config::USER_AGENT);
}
