use bds_enhancer::codec::extract_action_json;
use bds_enhancer::framer::LogFramer;
use bds_enhancer::level::{get_log_level, level_from, parse_level, LogLevel};
use bds_enhancer::pattern::capture;
use bds_enhancer::platform::{supported_platform, Platform};
use bds_enhancer::reply::{
    player_json, result_json, script_event_text, shell_error_json, shell_json,
};
use bds_enhancer::chunk::Chunk;
use bds_enhancer::player::PlayerInfo;
use bds_enhancer::text::{decimal_text, find, join, same, strip_prefix, text_after, to_chars, trim};

#[test]
fn level_is_read_from_the_header() {
    assert_eq!(get_log_level("[2024-05-01 10:00:00:000 INFO] Server started."), LogLevel::Info);
    assert_eq!(get_log_level("[2024-05-01 10:00:00:000 WARN] Slow tick"), LogLevel::Warn);
    assert_eq!(get_log_level("[2024-05-01 10:00:00:000 ERROR] Crash"), LogLevel::Error);
    assert_eq!(
        get_log_level("NO LOG FILE! - [2024-05-01 10:00:00:000 ERROR] Crash"),
        LogLevel::Error
    );
}

#[test]
fn level_defaults_to_info() {
    assert_eq!(get_log_level("ERROR without a header"), LogLevel::Info);
    assert_eq!(get_log_level("[2024-05-01 10:00:00 ERROR] no milliseconds"), LogLevel::Info);
    assert_eq!(get_log_level("[2024-05-01 10:00:00:000 DEBUG] unknown"), LogLevel::Info);
    assert_eq!(get_log_level(""), LogLevel::Info);
}

#[test]
fn level_names_are_exact() {
    assert_eq!(parse_level("INFO"), Some(LogLevel::Info));
    assert_eq!(parse_level("WARN"), Some(LogLevel::Warn));
    assert_eq!(parse_level("ERROR"), Some(LogLevel::Error));
    assert_eq!(parse_level("error"), None);
    assert_eq!(parse_level("WARNING"), None);
    assert_eq!(parse_level(""), None);
}

#[test]
fn level_comes_from_the_first_group() {
    let found = Some(vec![Some("x".to_string()), Some("WARN".to_string()), Some("ERROR".to_string())]);
    assert_eq!(level_from(&found), LogLevel::Warn);
    assert_eq!(level_from(&Some(vec![Some("x".to_string()), None])), LogLevel::Info);
    assert_eq!(level_from(&Some(vec![Some("x".to_string())])), LogLevel::Info);
    assert_eq!(level_from(&None), LogLevel::Info);
}

#[test]
fn group_is_picked_by_index() {
    let found = Some(vec![Some("all".to_string()), None, Some("two".to_string())]);
    assert_eq!(capture(&found, 0), Some("all"));
    assert_eq!(capture(&found, 1), None);
    assert_eq!(capture(&found, 2), Some("two"));
    assert_eq!(capture(&found, 3), None);
    assert_eq!(capture(&None, 0), None);
}

#[test]
fn control_message_is_cut_out_of_the_record() {
    assert_eq!(
        extract_action_json(
            "[2024-05-01 10:00:00:000 INFO] [Scripting] bds_enhancer:{\"action\":\"reload\"}"
        ),
        Some("{\"action\":\"reload\"}".to_string())
    );
    assert_eq!(
        extract_action_json(
            "[Scripting] bds_enhancer:{\"action\":\"kick\",\"payload\":{\"player\":\"Bob\",\"reason\":\"spam\"}} trailing"
        ),
        Some("{\"action\":\"kick\",\"payload\":{\"player\":\"Bob\",\"reason\":\"spam\"}}".to_string())
    );
}

#[test]
fn record_without_marker_carries_no_control_message() {
    assert_eq!(extract_action_json("[Scripting] hello {\"action\":\"reload\"}"), None);
    assert_eq!(extract_action_json("[Scripting] bds_enhancer:reload"), None);
    assert_eq!(extract_action_json("bds_enhancer:{\"action\":\"reload\"}"), None);
    assert_eq!(extract_action_json(""), None);
}

#[test]
fn framer_gives_out_complete_records() {
    let mut framer = LogFramer::new();
    assert_eq!(framer.push(b"first\nsecond\nthi"), vec!["first", "second"]);
    assert!(framer.push(b"rd").is_empty());
    assert_eq!(framer.push(b"\n"), vec!["third"]);
    assert_eq!(framer.finish(), None);
}

#[test]
fn framer_flushes_what_is_left_at_the_end() {
    let mut framer = LogFramer::new();
    assert_eq!(framer.push(b"one\ntwo"), vec!["one"]);
    assert_eq!(framer.finish(), Some("two".to_string()));
    assert_eq!(framer.finish(), None);
    assert_eq!(framer.push(b"three\n"), vec!["three"]);
}

#[test]
fn framer_keeps_empty_records() {
    let mut framer = LogFramer::new();
    assert_eq!(framer.push(b"\n\na\n"), vec!["", "", "a"]);
    assert!(framer.push(b"").is_empty());
    assert_eq!(framer.finish(), None);
}

#[test]
fn framer_does_not_care_where_the_stream_is_cut() {
    let stream = "[INFO] alpha\n[WARN] beta gamma\n\nδelta\nrest".as_bytes();
    let mut whole = LogFramer::new();
    let mut expected = whole.push(stream);
    expected.extend(whole.finish());
    for cut in 0..=stream.len() {
        let mut framer = LogFramer::new();
        let mut records = framer.push(&stream[..cut]);
        records.extend(framer.push(&stream[cut..]));
        records.extend(framer.finish());
        assert_eq!(records, expected);
    }
    let mut framer = LogFramer::new();
    let mut records = Vec::new();
    for byte in stream {
        records.extend(framer.push(&[*byte]));
    }
    records.extend(framer.finish());
    assert_eq!(records, expected);
    assert_eq!(expected, vec!["[INFO] alpha", "[WARN] beta gamma", "", "δelta", "rest"]);
}

#[test]
fn framer_replaces_what_is_no_text() {
    let mut framer = LogFramer::new();
    assert_eq!(framer.push(&[b'a', 0xff, b'b', b'\n']), vec!["a\u{fffd}b"]);
}

#[test]
fn marker_is_found_at_its_first_place() {
    assert_eq!(find("abc*###def*###", "*###"), Some(3));
    assert_eq!(find("*###", "*###"), Some(0));
    assert_eq!(find("é*###", "*###"), Some(1));
    assert_eq!(find("*##", "*###"), None);
    assert_eq!(find("", "*###"), None);
    assert_eq!(find("abc", ""), Some(0));
    assert_eq!(find("**###", "*###"), Some(1));
    assert_eq!(text_after("abc*###def*###", "*###"), Some("def*###"));
    assert_eq!(text_after("abc*###", "*###"), Some(""));
    assert_eq!(text_after("abc", "*###"), None);
}

#[test]
fn prefix_is_stripped_once() {
    assert_eq!(strip_prefix("NO LOG FILE! - text", "NO LOG FILE! - "), Some("text"));
    assert_eq!(strip_prefix("aab", "a"), Some("ab"));
    assert_eq!(strip_prefix("text", "NO LOG FILE! - "), None);
    assert_eq!(strip_prefix("", "a"), None);
    assert_eq!(strip_prefix("a", ""), Some("a"));
    assert!(same("abc", "abc"));
    assert!(!same("abc", "abd"));
    assert!(!same("abc", "ab"));
    assert!(same("", ""));
    assert_eq!(to_chars("aé"), vec!['a', 'é']);
}

#[test]
fn trim_removes_white_space_at_both_ends() {
    assert_eq!(trim("  a b \n"), "a b");
    assert_eq!(trim("a"), "a");
    assert_eq!(trim("\t\r\n "), "");
    assert_eq!(trim(""), "");
    assert_eq!(trim("\u{3000}x\u{a0}"), "x");
    assert_eq!(trim("_ x _"), "_ x _");
}

#[test]
fn words_are_joined_and_numbers_written() {
    assert_eq!(join(&vec![], " "), "");
    assert_eq!(join(&vec!["a".to_string()], " "), "a");
    assert_eq!(join(&vec!["a".to_string(), "".to_string(), "b".to_string()], ", "), "a, , b");
    assert_eq!(decimal_text(0), "0");
    assert_eq!(decimal_text(9), "9");
    assert_eq!(decimal_text(10), "10");
    assert_eq!(decimal_text(1905), "1905");
    assert_eq!(decimal_text(65535), "65535");
}

#[test]
fn replies_are_json_objects() {
    let chunk = Chunk { text: "line \"one\"\nline\ttwo\\".to_string(), count: 3, end: false };
    assert_eq!(
        result_json("say \"hi\"", &chunk),
        "{\"command\":\"say \\\"hi\\\"\",\"result_message\":\"line \\\"one\\\"\\nline\\ttwo\\\\\",\"count\":3,\"end\":false}"
    );
    assert_eq!(
        shell_json("ls", &chunk),
        "{\"command\":\"ls\",\"result_message\":\"line \\\"one\\\"\\nline\\ttwo\\\\\",\"count\":3,\"end\":false,\"err\":false}"
    );
    assert_eq!(
        shell_error_json("ls", "denied"),
        "{\"command\":\"ls\",\"result_message\":\"Error: denied\",\"err\":true}"
    );
    let player = PlayerInfo {
        name: "Alice".to_string(),
        device_id: "dev".to_string(),
        xuid: "1".to_string(),
    };
    assert_eq!(player_json(&player), "{\"deviceId\":\"dev\",\"name\":\"Alice\",\"xuid\":\"1\"}");
    assert_eq!(script_event_text("chan", "{}"), "scriptevent chan {}");
}

#[test]
fn only_linux_and_windows_are_supported() {
    assert_eq!(supported_platform("linux"), Some(Platform::Linux));
    assert_eq!(supported_platform("windows"), Some(Platform::Windows));
    assert_eq!(supported_platform("macos"), None);
    assert_eq!(supported_platform("Linux"), None);
    assert_eq!(supported_platform(""), None);
    assert!(Platform::Linux.needs_library_path());
    assert!(!Platform::Windows.needs_library_path());
}

#[test]
fn framer_drops_the_carriage_return_of_a_line_ending() {
    let mut framer = LogFramer::new();
    assert_eq!(framer.push(b"one\r\ntwo\r"), vec!["one"]);
    assert_eq!(framer.push(b"\nthree\rfour\n\r\n"), vec!["two", "three\rfour", ""]);
    assert_eq!(framer.push(b"\r\r\nlast\r"), vec!["\r"]);
    assert_eq!(framer.finish(), Some("last\r".to_string()));
}
