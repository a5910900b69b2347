use catr::config::Config;
use catr::emit::{format_line, format_source, format_sources, open_failure_message, u64_to_string};

fn strings(v: Vec<&str>) -> Vec<String> {
    let mut out: Vec<String> = Vec::new();
    for s in v {
        out.push(s.to_string());
    }
    out
}

#[test]
fn numbers_render_exactly() {
    assert_eq!(u64_to_string(0), "0");
    assert_eq!(u64_to_string(7), "7");
    assert_eq!(u64_to_string(42), "42");
    assert_eq!(u64_to_string(100), "100");
    assert_eq!(u64_to_string(123456), "123456");
    assert_eq!(u64_to_string(9876543210), "9876543210");
}

#[test]
fn numbered_source_matches_scenario() {
    let config = Config::new(strings(vec!["a.txt"]), true, false);
    let out = format_source(&config, &strings(vec!["hello", "world"]));
    assert_eq!(out, strings(vec!["     0\thello", "     1\tworld"]));
}

#[test]
fn nonblank_counter_numbers_every_line() {
    let config = Config::new(strings(vec!["-"]), false, true);
    let out = format_source(&config, &strings(vec!["a", "", "b"]));
    assert_eq!(out, strings(vec!["     1\ta", "     2\t", "     3\tb"]));
}

#[test]
fn plain_mode_is_identity() {
    let config = Config::new(strings(vec!["-"]), false, false);
    let lines = strings(vec!["hello", "", "  spaced\tout  ", "world"]);
    let out = format_source(&config, &lines);
    assert_eq!(out, lines);
}

#[test]
fn counter_restarts_for_each_source() {
    let config = Config::new(strings(vec!["a", "b"]), false, true);
    let sources = vec![strings(vec!["x", "y"]), strings(vec!["z"])];
    let out = format_sources(&config, &sources);
    assert_eq!(out, strings(vec!["     1\tx", "     2\ty", "     1\tz"]));
}

#[test]
fn output_line_count_is_sum_of_sources() {
    let config = Config::new(strings(vec!["a", "b", "c"]), true, false);
    let sources = vec![
        strings(vec!["one", "two"]),
        strings(vec![]),
        strings(vec!["three", "four", "five"]),
    ];
    let out = format_sources(&config, &sources);
    assert_eq!(out.len(), 5);
    assert_eq!(
        out,
        strings(vec![
            "     0\tone",
            "     1\ttwo",
            "     0\tthree",
            "     1\tfour",
            "     2\tfive",
        ])
    );
}

#[test]
fn wide_numbers_keep_all_digits() {
    let config = Config::new(strings(vec!["-"]), true, false);
    assert_eq!(format_line(&config, 1234567, "x"), "1234567\tx");
    assert_eq!(format_line(&config, 999999, "y"), "999999\ty");
}

#[test]
fn plain_line_is_returned_unchanged() {
    let config = Config::new(strings(vec!["-"]), false, false);
    assert_eq!(format_line(&config, 3, "left as is"), "left as is");
}

#[test]
fn empty_source_emits_nothing() {
    let config = Config::new(strings(vec!["-"]), true, false);
    let out = format_source(&config, &strings(vec![]));
    assert_eq!(out.len(), 0);
}

#[test]
fn open_failure_message_has_exact_shape() {
    assert_eq!(
        open_failure_message("missing.txt", "No such file or directory (os error 2)"),
        "Failed to open missing.txt: No such file or directory (os error 2)"
    );
}
