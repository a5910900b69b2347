use catr::args::resolve_config;
use catr::errors::CatError;

fn argv(v: Vec<&str>) -> Vec<String> {
    let mut out: Vec<String> = Vec::new();
    for s in v {
        out.push(s.to_string());
    }
    out
}

#[test]
fn no_arguments_defaults_to_stdin() {
    let config = resolve_config(&argv(vec!["catr"])).unwrap();
    assert_eq!(config.files, vec!["-".to_string()]);
    assert!(!config.number_lines);
    assert!(!config.number_nonblank_lines);
}

#[test]
fn short_number_flag_and_files() {
    let config = resolve_config(&argv(vec!["catr", "-n", "f1", "f2"])).unwrap();
    assert_eq!(config.files, argv(vec!["f1", "f2"]));
    assert!(config.number_lines);
    assert!(!config.number_nonblank_lines);
}

#[test]
fn long_number_flag() {
    let config = resolve_config(&argv(vec!["catr", "--number", "file"])).unwrap();
    assert!(config.number_lines);
    assert!(!config.number_nonblank_lines);
}

#[test]
fn nonblank_flag() {
    let config = resolve_config(&argv(vec!["catr", "-b", "file"])).unwrap();
    assert!(!config.number_lines);
    assert!(config.number_nonblank_lines);
    assert_eq!(config.files, vec!["file".to_string()]);
}

#[test]
fn long_nonblank_flag() {
    let config = resolve_config(&argv(vec!["catr", "--number-nonblank", "file"])).unwrap();
    assert!(config.number_nonblank_lines);
}

#[test]
fn conflicting_flags_are_a_usage_error() {
    let err = resolve_config(&argv(vec!["catr", "-n", "-b", "file"])).unwrap_err();
    match err {
        CatError::Arg { is_usage, .. } => assert!(is_usage),
        _ => panic!("expected an argument error"),
    }
}

#[test]
fn unknown_flag_is_a_usage_error() {
    let err = resolve_config(&argv(vec!["catr", "-z"])).unwrap_err();
    match err {
        CatError::Arg { message, is_usage } => {
            assert!(is_usage);
            assert!(!message.is_empty());
        }
        _ => panic!("expected an argument error"),
    }
}

#[test]
fn help_is_not_a_usage_error() {
    let err = resolve_config(&argv(vec!["catr", "--help"])).unwrap_err();
    match err {
        CatError::Arg { message, is_usage } => {
            assert!(!is_usage);
            assert!(message.contains("USAGE"));
        }
        _ => panic!("expected an argument error"),
    }
}

#[test]
fn version_is_not_a_usage_error() {
    let err = resolve_config(&argv(vec!["catr", "--version"])).unwrap_err();
    match err {
        CatError::Arg { message, is_usage } => {
            // clap prints the version text itself and hands back an empty message
            assert!(!is_usage);
            assert!(message.is_empty());
        }
        _ => panic!("expected an argument error"),
    }
}
