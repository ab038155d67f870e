use uptime::cli::{
    decide, parse_invocation, print_help, print_version, select_invocation, Invocation, Scan,
};
use uptime::error::UptimeError;

fn args(list: &[&str]) -> Vec<String> {
    list.iter().map(|s| s.to_string()).collect()
}

#[test]
fn no_argument_asks_for_the_report() {
    assert_eq!(parse_invocation(&args(&["uptime"])), Ok(Invocation::Report));
}

#[test]
fn the_version_flag_in_both_forms() {
    assert_eq!(parse_invocation(&args(&["uptime", "-v"])), Ok(Invocation::Version));
    assert_eq!(parse_invocation(&args(&["uptime", "--version"])), Ok(Invocation::Version));
}

#[test]
fn the_help_flag_in_both_forms() {
    assert_eq!(parse_invocation(&args(&["uptime", "-h"])), Ok(Invocation::Help));
    assert_eq!(parse_invocation(&args(&["uptime", "--help"])), Ok(Invocation::Help));
}

#[test]
fn the_version_flag_goes_before_the_help_flag() {
    assert_eq!(parse_invocation(&args(&["uptime", "-h", "-v"])), Ok(Invocation::Version));
    assert_eq!(parse_invocation(&args(&["uptime", "-hv"])), Ok(Invocation::Version));
    assert_eq!(parse_invocation(&args(&["uptime", "--version", "extra"])), Ok(Invocation::Version));
}

#[test]
fn a_free_argument_asks_for_help() {
    assert_eq!(parse_invocation(&args(&["uptime", "now"])), Ok(Invocation::Help));
    assert_eq!(parse_invocation(&args(&["uptime", "-"])), Ok(Invocation::Help));
    assert_eq!(parse_invocation(&args(&["uptime", "--", "-v"])), Ok(Invocation::Help));
}

#[test]
fn the_program_name_is_no_argument() {
    assert_eq!(parse_invocation(&args(&["-v"])), Ok(Invocation::Report));
    assert_eq!(parse_invocation(&args(&["--bogus"])), Ok(Invocation::Report));
    assert_eq!(parse_invocation(&args(&["--"])), Ok(Invocation::Report));
}

#[test]
fn an_unknown_option_is_an_error() {
    assert_eq!(
        parse_invocation(&args(&["uptime", "-x"])),
        Err(UptimeError::InvalidOptions(String::from("Unrecognized option: 'x'")))
    );
    assert_eq!(
        parse_invocation(&args(&["uptime", "--bogus"])),
        Err(UptimeError::InvalidOptions(String::from("Unrecognized option: 'bogus'")))
    );
}

#[test]
fn a_flag_given_twice_is_an_error() {
    assert_eq!(
        parse_invocation(&args(&["uptime", "-v", "--version"])),
        Err(UptimeError::InvalidOptions(String::from("Option 'version' given more than once")))
    );
}

#[test]
fn a_flag_with_a_value_is_an_error() {
    assert_eq!(
        parse_invocation(&args(&["uptime", "--help=me"])),
        Err(UptimeError::InvalidOptions(String::from(
            "Option 'help' does not take an argument"
        )))
    );
}

#[test]
fn invocation_by_flags_and_free_arguments() {
    assert_eq!(select_invocation(false, false, 0), Invocation::Report);
    assert_eq!(select_invocation(true, false, 0), Invocation::Version);
    assert_eq!(select_invocation(true, true, 3), Invocation::Version);
    assert_eq!(select_invocation(false, true, 0), Invocation::Help);
    assert_eq!(select_invocation(false, false, 1), Invocation::Help);
    assert_eq!(select_invocation(false, true, 2), Invocation::Help);
}

#[test]
fn a_scan_is_turned_into_a_decision() {
    let scan = Scan { version: false, help: false, free: vec![] };
    assert_eq!(decide(Ok(scan)), Ok(Invocation::Report));
    let scan = Scan { version: false, help: false, free: vec![String::from("x")] };
    assert_eq!(decide(Ok(scan)), Ok(Invocation::Help));
    let scan = Scan { version: true, help: true, free: vec![String::from("x")] };
    assert_eq!(decide(Ok(scan)), Ok(Invocation::Version));
    assert_eq!(
        decide(Err(String::from("what is wrong"))),
        Err(UptimeError::InvalidOptions(String::from("what is wrong")))
    );
}

#[test]
fn the_version_line() {
    assert_eq!(print_version("1.2.3"), "uptime 1.2.3\n");
    assert_eq!(print_version(""), "uptime \n");
}

#[test]
fn the_help_text() {
    let expected = "uptime 0.0.1\n\nUsage:\n  uptime [OPTION]\n\n\
Print the current time, the length of time the system has been up,\n\
the number of users on the system, and the average number of jobs\n\
in the run queue over the last 1, 5 and 15 minutes.\n\nOptions:\n    \
-v, --version       output version information and exit\n    \
-h, --help          display this help and exit\n\n";
    assert_eq!(print_help("0.0.1"), expected);
}
