use jetson_flash::logging::{
    command_failed_message, console_line, file_line, latest_log_name, lines, log_file_name,
    logging_to_message, pretty, tail_display_line, tail_lines, Level,
};
use jetson_flash::text::{
    after_last_slash, cat, cat3, contains, decimal_string, has_prefix, has_suffix, join_strings,
    less_than,
};

fn strings(items: &[&str]) -> Vec<String> {
    items.iter().map(|s| s.to_string()).collect()
}

#[test]
fn join_puts_separator_between_parts_only() {
    assert_eq!(join_strings(&strings(&["a", "b", "c"]), ", "), "a, b, c");
    assert_eq!(join_strings(&strings(&["a"]), ", "), "a");
    assert_eq!(join_strings(&strings(&[]), ", "), "");
    assert_eq!(join_strings(&strings(&["", ""]), ";"), ";");
}

#[test]
fn concatenation_helpers() {
    assert_eq!(cat("ab", "cd"), "abcd");
    assert_eq!(cat3("a", "-", "b"), "a-b");
}

#[test]
fn substring_search() {
    assert!(contains("NAME=Ubuntu\nVERSION_ID=\"24.04\"\n", "VERSION_ID=\"24.04\""));
    assert!(!contains("VERSION_ID=\"22.04\"", "VERSION_ID=\"24.04\""));
    assert!(contains("abc", ""));
    assert!(contains("", ""));
    assert!(!contains("ab", "abc"));
    assert!(contains("hosts: files mdns4_minimal dns", "mdns"));
    assert!(contains("aab", "ab"));
}

#[test]
fn prefix_and_suffix() {
    assert!(has_prefix("Jetson_Linux_R39.2.0_aarch64.tbz2", "Jetson_Linux_R"));
    assert!(!has_prefix("Jetson", "Jetson_Linux_R"));
    assert!(has_suffix("Jetson_Linux_R39.2.0_aarch64.tbz2", "_aarch64.tbz2"));
    assert!(!has_suffix("Jetson_Linux_R39.2.0_aarch64.tbz", "_aarch64.tbz2"));
    assert!(has_prefix("x", ""));
    assert!(has_suffix("x", ""));
}

#[test]
fn lexicographic_order() {
    assert!(less_than("a", "b"));
    assert!(!less_than("b", "a"));
    assert!(less_than("ab", "abc"));
    assert!(!less_than("abc", "ab"));
    assert!(!less_than("same", "same"));
    assert!(less_than("", "a"));
    assert!(less_than("R36", "R39"));
}

#[test]
fn last_segment_of_url() {
    assert_eq!(after_last_slash("https://example.com/a/b/file.tbz2"), "file.tbz2");
    assert_eq!(after_last_slash("no-slash"), "no-slash");
    assert_eq!(after_last_slash("ends/"), "");
    assert_eq!(after_last_slash(""), "");
}

#[test]
fn decimal_rendering() {
    assert_eq!(decimal_string(0), "0");
    assert_eq!(decimal_string(7), "7");
    assert_eq!(decimal_string(15), "15");
    assert_eq!(decimal_string(1200), "1200");
    assert_eq!(decimal_string(usize::MAX), usize::MAX.to_string());
}

#[test]
fn lines_split_like_str_lines() {
    for text in ["", "a", "a\n", "a\nb", "a\r\nb\r\n", "a\r", "\n\n", "x\r\ny\n\nz", "\r\n"] {
        let expected: Vec<String> = text.lines().map(|l| l.to_string()).collect();
        assert_eq!(lines(text), expected, "text {:?}", text);
    }
}

#[test]
fn tail_keeps_the_last_lines() {
    assert_eq!(tail_lines("1\n2\n3\n4\n", 2), strings(&["3", "4"]));
    assert_eq!(tail_lines("1\n2\n", 20), strings(&["1", "2"]));
    assert_eq!(tail_lines("1\n2\n", 0), strings(&[]));
    assert_eq!(tail_lines("", 3), strings(&[]));
}

#[test]
fn level_tags_and_lines() {
    assert_eq!(Level::Heading.tag(), "==>");
    assert_eq!(Level::Info.tag(), "[info]");
    assert_eq!(Level::Success.tag(), "[ok]");
    assert_eq!(Level::Warning.tag(), "[warn]");
    assert_eq!(Level::Failure.tag(), "[fail]");
    assert_eq!(file_line(Level::Info, "hello"), "[info] hello");
    assert_eq!(console_line(false, Level::Success, "done"), "[ok] done");
    assert_eq!(console_line(true, Level::Failure, "bad"), "\x1b[1;31m[fail]\x1b[0m bad");
    assert_eq!(console_line(true, Level::Heading, "go"), "\x1b[1;35m==>\x1b[0m go");
}

#[test]
fn command_labels() {
    assert_eq!(pretty("sudo", &strings(&["apt-get", "update"])), "sudo apt-get update");
    assert_eq!(pretty("ls", &strings(&[])), "ls");
}

#[test]
fn log_names_and_messages() {
    assert_eq!(log_file_name("check", "20240101-120000"), "check-20240101-120000.log");
    assert_eq!(latest_log_name("flash"), "flash-latest.log");
    assert_eq!(logging_to_message("check", "logs/check.log"), "logging check -> logs/check.log");
    assert_eq!(
        command_failed_message("sudo ls", "logs/x.log"),
        "`sudo ls` failed — tail of logs/x.log:"
    );
    assert_eq!(tail_display_line("x"), "    x");
}
