use uec::line::{classify_line, route_line, LineKind};
use uec::log::{LogBuffer, Stream};
use uec::runner::{command_text, ExitOutcome, RunConfig, RunStart};
use uec::text::{contains_text, remove_text, same_text, starts_with_text};

fn s(x: &str) -> String {
    x.to_string()
}

#[test]
fn classify_warning_error_plain() {
    assert_eq!(classify_line("foo(1): warning C1234: test"), LineKind::Warning);
    assert_eq!(classify_line("foo(1): error C2065: undeclared"), LineKind::Error);
    assert_eq!(classify_line("Compiling foo.cpp"), LineKind::Plain);
    assert_eq!(classify_line(""), LineKind::Plain);
    assert_eq!(classify_line("x): warning C1): error C2"), LineKind::Warning);
    assert_eq!(classify_line("warning C1234"), LineKind::Plain);
}

#[test]
fn route_drops_non_errors_in_error_only_mode() {
    assert_eq!(route_line("a(1): warning C1: w", true), None);
    assert_eq!(route_line("plain", true), None);
    assert_eq!(route_line("a(1): error C1: e", true), Some(LineKind::Error));
    assert_eq!(route_line("plain", false), Some(LineKind::Plain));
    assert_eq!(route_line("a(1): warning C1: w", false), Some(LineKind::Warning));
}

#[test]
fn warning_line_is_highlighted_and_logged() {
    let mut log = LogBuffer::new();
    let shown = log.record(Stream::Stdout, s("foo(1): warning C1234: test"), false);
    assert_eq!(shown, Some(LineKind::Warning));
    assert_eq!(log.text(), "foo(1): warning C1234: test\n");
    assert_eq!(log.log_block(), "foo(1): warning C1234: test\n\n");
    assert!(ExitOutcome::from_code(Some(0)).success);
}

#[test]
fn stdout_order_kept_with_stderr_between() {
    let mut log = LogBuffer::new();
    log.record(Stream::Stdout, s("a"), false);
    log.record(Stream::Stderr, s("x"), false);
    log.record(Stream::Stdout, s("b"), false);
    log.record(Stream::Stderr, s("y"), false);
    log.record(Stream::Stdout, s("c"), false);
    let lines = log.lines();
    let out: Vec<&String> = lines.iter().filter(|l| *l == "a" || *l == "b" || *l == "c").collect();
    assert_eq!(out, vec!["a", "b", "c"]);
    assert_eq!(log.len(), 5);
    assert_eq!(log.text(), "a\nx\nb\ny\nc\n");
}

#[test]
fn error_only_log_holds_errors_alone() {
    let mut log = LogBuffer::new();
    assert_eq!(log.record(Stream::Stdout, s("plain"), true), None);
    assert_eq!(log.record(Stream::Stdout, s("f(2): warning C4: w"), true), None);
    assert_eq!(log.record(Stream::Stderr, s("f(3): error C5: e"), true), Some(LineKind::Error));
    assert_eq!(log.record(Stream::Stderr, s("stderr plain"), true), None);
    assert_eq!(log.lines(), vec![s("f(3): error C5: e")]);
}

#[test]
fn all_lines_counted_without_filter() {
    let mut log = LogBuffer::new();
    for i in 0..3 {
        log.record(Stream::Stdout, format!("out {}", i), false);
    }
    for i in 0..2 {
        log.record(Stream::Stderr, format!("err {}", i), false);
    }
    assert_eq!(log.len(), 5);
}

#[test]
fn empty_log_block_is_one_newline() {
    let log = LogBuffer::new();
    assert_eq!(log.text(), "");
    assert_eq!(log.log_block(), "\n");
}

#[test]
fn two_runs_append_two_blocks() {
    let mut first = LogBuffer::new();
    first.record(Stream::Stdout, s("one"), false);
    let mut second = LogBuffer::new();
    second.record(Stream::Stdout, s("two"), false);
    let mut file = s("prior\n");
    file.push_str(&first.log_block());
    file.push_str(&second.log_block());
    assert_eq!(file, "prior\none\n\ntwo\n\n");
}

#[test]
fn exit_code_kept_in_outcome() {
    let failed = ExitOutcome::from_code(Some(3));
    assert!(!failed.success);
    assert_eq!(failed.raw_status, Some(3));
    let killed = ExitOutcome::from_code(None);
    assert!(!killed.success);
    assert_eq!(killed.raw_status, None);
    let ok = ExitOutcome::from_code(Some(0));
    assert!(ok.success);
    assert_eq!(ok.raw_status, Some(0));
}

#[test]
fn dry_run_prints_exact_command() {
    let cfg = RunConfig { error_only: false, dry_run: true, log_path: None };
    let args = vec![s("/C"), s("touch marker"), s("a\"b\\c")];
    match cfg.start("cmd", &args) {
        RunStart::DryRun { text, outcome } => {
            assert_eq!(text, "[DRY_RUN] \"cmd\" \"/C\" \"touch marker\" \"a\\\"b\\\\c\"");
            assert!(outcome.success);
            assert_eq!(outcome.raw_status, Some(0));
        }
        RunStart::Spawn => panic!("a dry run must not spawn"),
    }
    let live = RunConfig { error_only: false, dry_run: false, log_path: Some(s("log.txt")) };
    assert!(matches!(live.start("cmd", &args), RunStart::Spawn));
}

#[test]
fn command_text_of_program_alone() {
    assert_eq!(command_text("echo-stub", &vec![]), "[DRY_RUN] \"echo-stub\"");
}

#[test]
fn text_searches() {
    assert!(contains_text("abcabd", "abd"));
    assert!(!contains_text("abcab", "abd"));
    assert!(contains_text("abc", ""));
    assert!(!contains_text("", "a"));
    assert!(starts_with_text("-project=x", "-project="));
    assert!(!starts_with_text("-proj", "-project="));
    assert!(same_text("abc", "abc"));
    assert!(!same_text("abc", "abd"));
    assert_eq!(remove_text("\\\\?\\C:\\x\\\\?\\y", "\\\\?\\"), "C:\\xy");
    assert_eq!(remove_text("abc", ""), "abc");
}
