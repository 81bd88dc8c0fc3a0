use catr::config::{build_config, Config};
use catr::emitter::{
    open_error_line, process_source, read_error_line, run_on, FetchedSource, SourceOutcome,
};
use catr::numbering::{format_counter, render_line};

fn owned(lines: &[&str]) -> Vec<String> {
    lines.iter().map(|l| l.to_string()).collect()
}

fn plain_config() -> Config {
    Config { files: owned(&["-"]), number_lines: false, number_nonblank_lines: false }
}

fn numbered_config() -> Config {
    Config { files: owned(&["-"]), number_lines: true, number_nonblank_lines: false }
}

fn nonblank_config() -> Config {
    Config { files: owned(&["-"]), number_lines: false, number_nonblank_lines: true }
}

#[test]
fn plain_output_is_input() {
    let lines = owned(&["alpha", "", "  ", "beta"]);
    let out = process_source(&plain_config(), &lines);
    assert_eq!(out, lines);
}

#[test]
fn plain_output_empty_source() {
    let lines: Vec<String> = Vec::new();
    let out = process_source(&plain_config(), &lines);
    assert!(out.is_empty());
}

#[test]
fn number_all_lines() {
    let lines = owned(&["fox", "", "dog"]);
    let out = process_source(&numbered_config(), &lines);
    assert_eq!(out, owned(&["     1\tfox", "     2\t", "     3\tdog"]));
}

#[test]
fn number_nonblank_skips_blanks() {
    let lines = owned(&["", "hello", ""]);
    let out = process_source(&nonblank_config(), &lines);
    assert_eq!(out, owned(&["", "     1\thello", ""]));
}

#[test]
fn number_nonblank_counter_unaffected_by_blanks() {
    let lines = owned(&["one", "", "", "two", " ", "three"]);
    let out = process_source(&nonblank_config(), &lines);
    assert_eq!(
        out,
        owned(&["     1\tone", "", "", "     2\ttwo", "     3\t ", "     4\tthree"])
    );
}

#[test]
fn whitespace_only_line_is_not_blank() {
    let lines = owned(&["  ", "x"]);
    let out = process_source(&nonblank_config(), &lines);
    assert_eq!(out, owned(&["     1\t  ", "     2\tx"]));
}

#[test]
fn repeated_runs_are_identical() {
    let lines = owned(&["a", "", "b"]);
    let first = process_source(&nonblank_config(), &lines);
    let second = process_source(&nonblank_config(), &lines);
    assert_eq!(first, second);
    let first_all = process_source(&numbered_config(), &lines);
    let second_all = process_source(&numbered_config(), &lines);
    assert_eq!(first_all, second_all);
}

#[test]
fn counter_width_and_no_truncation() {
    assert_eq!(format_counter(1), "     1");
    assert_eq!(format_counter(0), "     0");
    assert_eq!(format_counter(42), "    42");
    assert_eq!(format_counter(99999), " 99999");
    assert_eq!(format_counter(123456), "123456");
    assert_eq!(format_counter(1234567), "1234567");
}

#[test]
fn render_line_steps_counter_only_when_numbering() {
    let (text, next) = render_line(&plain_config(), 7, "body");
    assert_eq!(text, "body");
    assert_eq!(next, 7);
    let (text, next) = render_line(&numbered_config(), 7, "body");
    assert_eq!(text, "     7\tbody");
    assert_eq!(next, 8);
    let (text, next) = render_line(&nonblank_config(), 7, "");
    assert_eq!(text, "");
    assert_eq!(next, 7);
    let (text, next) = render_line(&nonblank_config(), 7, "body");
    assert_eq!(text, "     7\tbody");
    assert_eq!(next, 8);
}

#[test]
fn sources_are_numbered_independently() {
    let sources = vec![
        FetchedSource {
            name: "a.txt".to_string(),
            outcome: SourceOutcome::Opened(owned(&["one", "two"]), None),
        },
        FetchedSource {
            name: "b.txt".to_string(),
            outcome: SourceOutcome::Opened(owned(&["three"]), None),
        },
    ];
    let (out, errs) = run_on(&numbered_config(), &sources);
    assert_eq!(out, owned(&["     1\tone", "     2\ttwo", "     1\tthree"]));
    assert!(errs.is_empty());
}

#[test]
fn missing_source_is_skipped_with_one_diagnostic() {
    let sources = vec![
        FetchedSource {
            name: "exists.txt".to_string(),
            outcome: SourceOutcome::Opened(owned(&["kept line"]), None),
        },
        FetchedSource {
            name: "missing.txt".to_string(),
            outcome: SourceOutcome::OpenFailed("No such file or directory".to_string()),
        },
    ];
    let (out, errs) = run_on(&plain_config(), &sources);
    assert_eq!(out, owned(&["kept line"]));
    assert_eq!(errs.len(), 1);
    assert_eq!(errs[0], "Failed to open missing.txt: No such file or directory");
    assert!(errs[0].contains("missing.txt"));
}

#[test]
fn read_failure_keeps_earlier_lines_and_reports() {
    let sources = vec![FetchedSource {
        name: "broken.txt".to_string(),
        outcome: SourceOutcome::Opened(
            owned(&["before the failure"]),
            Some("stream did not decode".to_string()),
        ),
    }];
    let (out, errs) = run_on(&plain_config(), &sources);
    assert_eq!(out, owned(&["before the failure"]));
    assert_eq!(errs, owned(&["Failed to read broken.txt: stream did not decode"]));
}

#[test]
fn diagnostic_lines_have_exact_form() {
    assert_eq!(
        open_error_line("data.txt", "Permission denied"),
        "Failed to open data.txt: Permission denied"
    );
    assert_eq!(
        read_error_line("data.txt", "unexpected end of file"),
        "Failed to read data.txt: unexpected end of file"
    );
}

#[test]
fn conflicting_flags_are_a_usage_error() {
    let r = build_config(owned(&["a.txt"]), true, true);
    match r {
        Err(message) => {
            assert_eq!(message, "usage error: --number cannot be used with --number-nonblank");
        }
        Ok(_) => panic!("conflicting flags must be rejected"),
    }
}

#[test]
fn build_config_defaults_to_stdin() {
    let r = build_config(Vec::new(), true, false);
    match r {
        Ok(config) => {
            assert_eq!(config.files, owned(&["-"]));
            assert!(config.number_lines);
            assert!(!config.number_nonblank_lines);
        }
        Err(_) => panic!("a single flag is not a usage error"),
    }
}

#[test]
fn build_config_keeps_given_files() {
    let r = build_config(owned(&["x.txt", "-", "x.txt"]), false, true);
    match r {
        Ok(config) => {
            assert_eq!(config.files, owned(&["x.txt", "-", "x.txt"]));
            assert!(!config.number_lines);
            assert!(config.number_nonblank_lines);
        }
        Err(_) => panic!("a single flag is not a usage error"),
    }
}
