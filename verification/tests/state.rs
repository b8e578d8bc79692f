use onebox::state::{AppData, LogType, LOG_CAPACITY};

#[test]
fn new_data_is_empty() {
    let data = AppData::new();
    assert_eq!(data.read(LogType::Info), "");
    assert_eq!(data.read(LogType::Error), "");
    assert_eq!(data.get_cached_dns(), None);
    assert_eq!(data.get_clash_secret(), None);
}

#[test]
fn read_joins_lines_with_line_feeds() {
    let mut data = AppData::new();
    data.write("one".to_string(), LogType::Info);
    assert_eq!(data.read(LogType::Info), "one");
    data.write("two".to_string(), LogType::Info);
    data.write("three".to_string(), LogType::Info);
    assert_eq!(data.read(LogType::Info), "one\ntwo\nthree");
    assert_eq!(data.read(LogType::Error), "");
}

#[test]
fn levels_are_kept_apart() {
    let mut data = AppData::new();
    data.write("fine".to_string(), LogType::Info);
    data.write("bad".to_string(), LogType::Error);
    assert_eq!(data.read(LogType::Info), "fine");
    assert_eq!(data.read(LogType::Error), "bad");
}

#[test]
fn full_buffer_drops_its_oldest_line() {
    assert_eq!(LOG_CAPACITY, 10);
    let mut data = AppData::new();
    for i in 0..10 {
        data.write(format!("line{}", i), LogType::Error);
    }
    assert_eq!(
        data.read(LogType::Error),
        "line0\nline1\nline2\nline3\nline4\nline5\nline6\nline7\nline8\nline9"
    );
    data.write("line10".to_string(), LogType::Error);
    assert_eq!(
        data.read(LogType::Error),
        "line1\nline2\nline3\nline4\nline5\nline6\nline7\nline8\nline9\nline10"
    );
    data.write("line11".to_string(), LogType::Error);
    assert_eq!(
        data.read(LogType::Error),
        "line2\nline3\nline4\nline5\nline6\nline7\nline8\nline9\nline10\nline11"
    );
}

#[test]
fn read_cleared_drains_one_level() {
    let mut data = AppData::new();
    data.write("a".to_string(), LogType::Info);
    data.write("b".to_string(), LogType::Info);
    data.write("c".to_string(), LogType::Error);
    assert_eq!(data.read_cleared(LogType::Info), "a\nb");
    assert_eq!(data.read(LogType::Info), "");
    assert_eq!(data.read_cleared(LogType::Info), "");
    assert_eq!(data.read(LogType::Error), "c");
    assert_eq!(data.read_cleared(LogType::Error), "c");
    assert_eq!(data.read(LogType::Error), "");
}

#[test]
fn cached_values_are_replaced() {
    let mut data = AppData::new();
    data.write("kept".to_string(), LogType::Info);
    data.set_cached_dns(Some("1.1.1.1".to_string()));
    data.set_clash_secret(Some("token".to_string()));
    assert_eq!(data.get_cached_dns(), Some("1.1.1.1".to_string()));
    assert_eq!(data.get_clash_secret(), Some("token".to_string()));
    data.set_cached_dns(None);
    assert_eq!(data.get_cached_dns(), None);
    assert_eq!(data.get_clash_secret(), Some("token".to_string()));
    data.set_clash_secret(None);
    assert_eq!(data.get_clash_secret(), None);
    assert_eq!(data.read(LogType::Info), "kept");
}
