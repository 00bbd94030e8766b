use mymonitor::cli::{parse_mode, RunMode};

fn args(items: &[&str]) -> Vec<String> {
    items.iter().map(|s| s.to_string()).collect()
}

#[test]
fn ui_flag_selects_dashboard() {
    assert_eq!(parse_mode(&args(&["-u"])), Ok(RunMode::Ui));
}

#[test]
fn stream_flag_selects_streaming() {
    assert_eq!(parse_mode(&args(&["-s"])), Ok(RunMode::Stream));
}

#[test]
fn no_argument_is_refused() {
    assert_eq!(parse_mode(&args(&[])), Err("missing required mode argument".to_string()));
}

#[test]
fn two_arguments_are_refused() {
    assert_eq!(parse_mode(&args(&["-u", "-s"])), Err("only one argument is supported".to_string()));
}

#[test]
fn help_gives_empty_message() {
    assert_eq!(parse_mode(&args(&["-h"])), Err(String::new()));
    assert_eq!(parse_mode(&args(&["--help"])), Err(String::new()));
}

#[test]
fn unknown_argument_is_named() {
    assert_eq!(parse_mode(&args(&["-x"])), Err("unknown argument: -x".to_string()));
    assert_eq!(parse_mode(&args(&["ui"])), Err("unknown argument: ui".to_string()));
}
