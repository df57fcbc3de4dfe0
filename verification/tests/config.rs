use downloader::config::{config_with_source, show_config, USER_AGENT};
use downloader::{config_init, get_config, KeySource};

#[test]
fn init_config_test() {
    let cfg = config_init();
    assert_eq!(get_config(&cfg, "user-agent").unwrap(), USER_AGENT);
    assert_eq!(get_config(&cfg, "bili_cookie").unwrap(), "");
    assert_eq!(get_config(&cfg, "save_dir").unwrap(), "/Users/louis");
    assert_eq!(get_config(&cfg, "no-such-key"), None);
}

#[test]
fn a_source_overrides_the_defaults() {
    let ks = KeySource::from_pairs(vec![
        ("bili_cookie".to_string(), "session-cookie-value".to_string()),
        ("save_dir".to_string(), "/data/media".to_string()),
    ]);
    let cfg = config_with_source(ks);
    assert_eq!(get_config(&cfg, "bili_cookie").unwrap(), "session-cookie-value");
    assert_eq!(get_config(&cfg, "save_dir").unwrap(), "/data/media");
    assert_eq!(get_config(&cfg, "user-agent").unwrap(), USER_AGENT);
}

#[test]
fn upgrade_config_test() {
    let mut keysource = KeySource::new();
    keysource.upgrade(KeySource::from_pairs(vec![(
        "hello".to_string(),
        "world".to_string(),
    )]));
    let plan = keysource.save();
    assert!(plan.contains(&("hello".to_string(), "world".to_string())));
    let cfg = config_with_source(keysource);
    assert_eq!(get_config(&cfg, "hello").unwrap(), "world");
}

#[test]
fn show_config_test() {
    let cfg = config_init();
    let entries = show_config(&cfg);
    assert_eq!(entries.len(), 3);
    assert!(entries.contains(&("user-agent".to_string(), USER_AGENT.to_string())));
    assert!(entries.contains(&("save_dir".to_string(), "/Users/louis".to_string())));
}

#[test]
fn later_entries_win_lookup() {
    let ks = KeySource::from_pairs(vec![
        ("k".to_string(), "first".to_string()),
        ("k".to_string(), "second".to_string()),
    ]);
    let cfg = config_with_source(ks);
    assert_eq!(get_config(&cfg, "k").unwrap(), "second");
}
