use mainframer::args::Args;
use mainframer::duration::DurationMs;
use mainframer::ignore::Ignore;
use mainframer::text::i32_string;
use mainframer::text::join_strings;
use mainframer::text::non_empty_lines;
use mainframer::text::trim_str;
use mainframer::text::u64_string;

#[test]
fn u64_rendering() {
    assert_eq!(u64_string(0), "0".to_string());
    assert_eq!(u64_string(9), "9".to_string());
    assert_eq!(u64_string(10), "10".to_string());
    assert_eq!(u64_string(1234567890), "1234567890".to_string());
    assert_eq!(u64_string(u64::MAX), "18446744073709551615".to_string());
}

#[test]
fn i32_rendering() {
    assert_eq!(i32_string(0), "0".to_string());
    assert_eq!(i32_string(23), "23".to_string());
    assert_eq!(i32_string(-1), "-1".to_string());
    assert_eq!(i32_string(i32::MIN), "-2147483648".to_string());
}

#[test]
fn join_with_spaces() {
    assert_eq!(join_strings(&vec![], " "), "".to_string());
    assert_eq!(join_strings(&vec!["one".to_string()], " "), "one".to_string());
    assert_eq!(
        join_strings(&vec!["one".to_string(), "two".to_string(), "three".to_string()], " "),
        "one two three".to_string()
    );
}

#[test]
fn trim_removes_surrounding_whitespace() {
    assert_eq!(trim_str(""), "".to_string());
    assert_eq!(trim_str("   "), "".to_string());
    assert_eq!(trim_str("  a b \n"), "a b".to_string());
    assert_eq!(trim_str("no-trim"), "no-trim".to_string());
}

#[test]
fn non_empty_lines_drops_blanks() {
    let lines = non_empty_lines("first\n\nsecond\nthird\n");
    assert_eq!(
        lines,
        vec!["first".to_string(), "second".to_string(), "third".to_string()]
    );
    assert_eq!(non_empty_lines(""), Vec::<String>::new());
    assert_eq!(non_empty_lines("\n\n"), Vec::<String>::new());
    assert_eq!(non_empty_lines("tail"), vec!["tail".to_string()]);
}

#[test]
fn args_command_joins_and_trims() {
    let args = Args::new(0, vec!["cargo".to_string(), "build".to_string()]);
    assert_eq!(args.command(), "cargo build".to_string());
    let padded = Args::new(2, vec!["  make".to_string(), "all  ".to_string()]);
    assert_eq!(padded.command(), "make all".to_string());
    assert_eq!(padded.verbose, 2);
}

#[test]
fn durations_display_as_seconds_and_minutes() {
    assert_eq!(DurationMs::from_millis(0).display_string(), "0 seconds".to_string());
    assert_eq!(DurationMs::from_millis(2600).display_string(), "2 seconds".to_string());
    assert_eq!(DurationMs::from_secs(59).display_string(), "59 seconds".to_string());
    assert_eq!(DurationMs::from_secs(60).display_string(), "1 minutes 0 seconds".to_string());
    assert_eq!(DurationMs::from_secs(150).display_string(), "2 minutes 30 seconds".to_string());
}

#[test]
fn ignore_lists_merge_shared_patterns() {
    let ignore = Ignore::new(
        Some(vec!["target".to_string()]),
        Some(vec!["logs".to_string()]),
        Some(vec![".git".to_string()]),
    );
    assert_eq!(ignore.push(), vec!["target".to_string(), ".git".to_string()]);
    assert_eq!(ignore.pull(), vec!["logs".to_string(), ".git".to_string()]);
    let empty = Ignore::new(None, None, None);
    assert_eq!(empty.push(), Vec::<String>::new());
    assert_eq!(empty.pull(), Vec::<String>::new());
    let only_both = Ignore::new(None, None, Some(vec!["shared".to_string()]));
    assert_eq!(only_both.push(), vec!["shared".to_string()]);
    assert_eq!(only_both.pull(), vec!["shared".to_string()]);
}
