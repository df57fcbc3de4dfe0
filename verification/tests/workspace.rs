use downloader::{media_kind, MediaKind, TempDirHandler};

#[test]
fn temp_dir_test() {
    let mut temp_file_handler = TempDirHandler::new("test");
    temp_file_handler.write("txt", b"Hello, ");
    temp_file_handler.write("txt", b"world!");
    assert_eq!(
        temp_file_handler.read("txt").map(|v| v.clone()),
        Some(b"Hello, world!".to_vec())
    );
}

#[test]
fn writes_to_different_suffixes_stay_apart() {
    let mut handler = TempDirHandler::new("clip");
    handler.write("mp4", &[1, 2, 3]);
    handler.write("aac", &[4, 5]);
    handler.write("mp4", &[6]);
    assert_eq!(handler.read("mp4").map(|v| v.clone()), Some(vec![1, 2, 3, 6]));
    assert_eq!(handler.read("aac").map(|v| v.clone()), Some(vec![4, 5]));
    assert_eq!(handler.read("srt").map(|v| v.clone()), None);
}

#[test]
fn titles_are_sanitized_before_use_as_path() {
    let handler = TempDirHandler::new("a/b: c?");
    assert_eq!(handler.filename, "ab c");
    assert_eq!(handler.full_name("mp4"), "ab c.mp4");
}

#[test]
fn media_kinds_come_from_the_suffix() {
    assert_eq!(media_kind("mp4"), MediaKind::Video);
    assert_eq!(media_kind("aac"), MediaKind::Audio);
    assert_eq!(media_kind("txt"), MediaKind::Other);
    assert_eq!(media_kind(""), MediaKind::Other);
}

#[test]
fn save_plans_the_mux_and_the_moves() {
    let mut handler = TempDirHandler::new("film");
    handler.write("mp4", &[0; 8]);
    handler.write("aac", &[0; 4]);
    handler.write("srt", b"1\n00:00:00,000");
    let plan = handler.save("/downloads");
    assert_eq!(plan.inputs, vec!["film.mp4".to_string(), "film.aac".to_string()]);
    assert_eq!(plan.moves, vec!["film.srt".to_string()]);
    assert_eq!(plan.output, "/downloads/film.mp4");
    assert_eq!(
        plan.args,
        vec![
            "-y".to_string(),
            "-i".to_string(),
            "film.mp4".to_string(),
            "-i".to_string(),
            "film.aac".to_string(),
            "-c:v".to_string(),
            "copy".to_string(),
            "-c:a".to_string(),
            "copy".to_string(),
            "/downloads/film.mp4".to_string(),
        ]
    );
}

#[test]
fn move_test() {
    let mut temp_file_handler = TempDirHandler::new("test");
    temp_file_handler.write("txt", b"Hello, world");
    assert_eq!(temp_file_handler.move_("test.txt", "/Users/louis"), "/Users/louis/test.txt");
}
