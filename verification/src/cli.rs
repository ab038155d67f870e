//! The command line: two flags, read by `getopts`, and what they ask for.

use crate::error::{UptimeError, UptimeErrorView};
use vstd::prelude::*;
use vstd::slice::slice_subrange;
use vstd::string::StringExecFns;

verus! {

/// The option set of `getopts`. Nothing of its inside is visible here: what
/// it holds goes by `flag_set`.
#[verifier::external_type_specification]
#[verifier::external_body]
pub struct ExOptions(getopts::Options);

/// A flag as the option set knows it: its one-letter name, its long name and
/// the line that describes it in the usage text.
pub struct FlagView {
    pub short: Seq<char>,
    pub long: Seq<char>,
    pub help: Seq<char>,
}

impl FlagView {
    /// The names are such as `getopts` takes: a short name of one ASCII
    /// character, or none, and a long name of two characters or more.
    pub open spec fn wf(&self) -> bool {
        &&& self.short.len() <= 1
        &&& forall|i: int| 0 <= i < self.short.len() ==> (#[trigger] self.short[i] as u32) < 128
        &&& self.long.len() >= 2
    }
}

/// What a command line held: whether each of the two flags was given, and the
/// arguments that are no options.
#[derive(Debug, PartialEq, Eq)]
pub struct Scan {
    pub version: bool,
    pub help: bool,
    pub free: Vec<String>,
}

/// A scan with its free arguments as sequences of characters.
pub struct ScanView {
    pub version: bool,
    pub help: bool,
    pub free: Seq<Seq<char>>,
}

impl View for Scan {
    type V = ScanView;

    open spec fn view(&self) -> ScanView {
        ScanView { version: self.version, help: self.help, free: self.free.deep_view() }
    }
}

/// The flags that an option set holds, in the order they were added, where it
/// was made empty and has been given flags only; nothing for any other set.
pub uninterp spec fn flag_set(options: getopts::Options) -> Option<Seq<FlagView>>;

/// What `getopts` makes of the arguments `args` under the flags `flags`: on
/// success whether the flags named `version` and `help` were given and the
/// free arguments in order, on failure the text that tells what is wrong.
pub uninterp spec fn getopts_outcome(
    flags: Seq<FlagView>,
    version: Seq<char>,
    help: Seq<char>,
    args: Seq<Seq<char>>,
) -> Result<ScanView, Seq<char>>;

/// The usage text that `getopts` lays out for the flags `flags` under the
/// heading `brief`.
pub uninterp spec fn getopts_usage(flags: Seq<FlagView>, brief: Seq<char>) -> Seq<char>;

/// Every flag of `flags` has names that `getopts` takes.
pub open spec fn flags_wf(flags: Seq<FlagView>) -> bool {
    forall|i: int| 0 <= i < flags.len() ==> (#[trigger] flags[i]).wf()
}

/// `name` is the long name of one of `flags`.
pub open spec fn names_flag(flags: Seq<FlagView>, name: Seq<char>) -> bool {
    exists|i: int| 0 <= i < flags.len() && (#[trigger] flags[i]).long == name
}

/// The view of a scan or of the text that came in its place.
pub open spec fn outcome_view(outcome: Result<Scan, String>) -> Result<ScanView, Seq<char>> {
    match outcome {
        Ok(scan) => Ok(scan@),
        Err(text) => Err(text@),
    }
}

/// `getopts::Options::new`: an option set that holds no flag yet.
#[verifier::external_body]
fn new_options() -> (options: getopts::Options)
    ensures
        flag_set(options) == Some(Seq::<FlagView>::empty()),
{
    getopts::Options::new()
}

/// `getopts::Options::optflag`: adds a flag that takes no argument and may be
/// given once. The call panics on a short name longer than one byte and on a
/// long name of exactly one byte; such names are kept out, and so is a flag
/// without a long name, which the set would take but could not be asked
/// about by that name later.
#[verifier::external_body]
fn add_flag(options: &mut getopts::Options, short: &str, long: &str, help: &str)
    requires
        flag_set(*old(options)) is Some,
        (FlagView { short: short@, long: long@, help: help@ }).wf(),
    ensures
        flag_set(*final(options)) == Some(
            flag_set(*old(options))->0.push(FlagView { short: short@, long: long@, help: help@ }),
        ),
{
    options.optflag(short, long, help);
}

/// `getopts::Options::parse` on `args`, then `Matches::opt_present` for the
/// two names and the field `free` of the matches; a failure is handed on as
/// the text that its `Display` gives. The result depends on the flags of the
/// set, the two names and the arguments alone, and is named by them.
/// `opt_present` panics on a name that the set does not hold, so both names
/// must be long names of its flags.
#[verifier::external_body]
fn scan_arguments(
    options: &getopts::Options,
    version: &str,
    help: &str,
    args: &[String],
) -> (outcome: Result<Scan, String>)
    requires
        flag_set(*options) is Some,
        flags_wf(flag_set(*options)->0),
        names_flag(flag_set(*options)->0, version@),
        names_flag(flag_set(*options)->0, help@),
    ensures
        outcome_view(outcome) == getopts_outcome(
            flag_set(*options)->0,
            version@,
            help@,
            args.deep_view(),
        ),
{
    match options.parse(args) {
        Ok(found) => Ok(
            Scan {
                version: found.opt_present(version),
                help: found.opt_present(help),
                free: found.free,
            },
        ),
        Err(fail) => Err(fail.to_string()),
    }
}

/// `getopts::Options::usage`: the heading, an empty line, the word
/// `Options:` and one row for each flag. The layout of the rows is the
/// crate's own; the text depends on the flags and the heading alone and is
/// named by them.
#[verifier::external_body]
fn usage_of(options: &getopts::Options, brief: &str) -> (text: String)
    requires
        flag_set(*options) is Some,
        flags_wf(flag_set(*options)->0),
    ensures
        text@ == getopts_usage(flag_set(*options)->0, brief@),
{
    options.usage(brief)
}

/// What the command line asks for.
#[derive(Clone, Copy, Debug, PartialEq, Eq, Structural)]
pub enum Invocation {
    /// Show the name and version, and end.
    Version,
    /// Show the usage text, and end.
    Help,
    /// Make the report.
    Report,
}

/// What a command line asks for, given whether each flag was there and how
/// many free arguments it held. The version flag goes before everything
/// else; a free argument asks for the usage text as the help flag does.
pub open spec fn invocation_of(version: bool, help: bool, free: nat) -> Invocation {
    if version {
        Invocation::Version
    } else if help || free > 0 {
        Invocation::Help
    } else {
        Invocation::Report
    }
}

/// What a scan of the command line leads to: the invocation it asks for, or
/// the error that tells why it could not be read.
pub open spec fn decision_of(outcome: Result<ScanView, Seq<char>>) -> Result<
    Invocation,
    UptimeErrorView,
> {
    match outcome {
        Ok(scan) => Ok(invocation_of(scan.version, scan.help, scan.free.len())),
        Err(text) => Err(UptimeErrorView::InvalidOptions(text)),
    }
}

/// The view of a decision.
pub open spec fn decision_view(decision: Result<Invocation, UptimeError>) -> Result<
    Invocation,
    UptimeErrorView,
> {
    match decision {
        Ok(invocation) => Ok(invocation),
        Err(error) => Err(error@),
    }
}

/// What the flags and the number of free arguments ask for.
pub fn select_invocation(version: bool, help: bool, free: usize) -> (invocation: Invocation)
    ensures
        invocation == invocation_of(version, help, free as nat),
{
    if version {
        Invocation::Version
    } else if help || free > 0 {
        Invocation::Help
    } else {
        Invocation::Report
    }
}

/// What a scan of the command line leads to.
pub fn decide(outcome: Result<Scan, String>) -> (decision: Result<Invocation, UptimeError>)
    ensures
        decision_view(decision) == decision_of(outcome_view(outcome)),
{
    match outcome {
        Ok(scan) => Ok(select_invocation(scan.version, scan.help, scan.free.len())),
        Err(text) => Err(UptimeError::InvalidOptions(text)),
    }
}

/// The two flags of the command: version and help.
pub open spec fn uptime_flags() -> Seq<FlagView> {
    seq![
        FlagView {
            short: "v"@,
            long: "version"@,
            help: "output version information and exit"@,
        },
        FlagView { short: "h"@, long: "help"@, help: "display this help and exit"@ },
    ]
}

/// The heading of the usage text.
pub open spec fn brief_text() -> Seq<char> {
    "Print the current time, the length of time the system has been up,\n\
     the number of users on the system, and the average number of jobs\n\
     in the run queue over the last 1, 5 and 15 minutes."@
}

fn uptime_options() -> (options: getopts::Options)
    ensures
        flag_set(options) == Some(uptime_flags()),
        flags_wf(uptime_flags()),
        names_flag(uptime_flags(), "version"@),
        names_flag(uptime_flags(), "help"@),
{
    proof {
        reveal_strlit("v");
        reveal_strlit("h");
        reveal_strlit("version");
        reveal_strlit("help");
    }
    let mut options: getopts::Options = new_options();
    add_flag(&mut options, "v", "version", "output version information and exit");
    add_flag(&mut options, "h", "help", "display this help and exit");
    proof {
        assert(flag_set(options)->0 =~= uptime_flags());
        assert(uptime_flags()[0].long == "version"@);
        assert(uptime_flags()[1].long == "help"@);
    }
    options
}

/// Reads the command line `args`, whose first entry is the program's name,
/// and tells what it asks for.
pub fn parse_invocation(args: &Vec<String>) -> (decision: Result<Invocation, UptimeError>)
    requires
        args.len() >= 1,
    ensures
        decision_view(decision) == decision_of(
            getopts_outcome(uptime_flags(), "version"@, "help"@, args.deep_view().skip(1)),
        ),
{
    let options: getopts::Options = uptime_options();
    let rest: &[String] = slice_subrange(args.as_slice(), 1, args.len());
    assert(rest.deep_view() =~= args.deep_view().skip(1));
    decide(scan_arguments(&options, "version", "help", rest))
}

/// The line that names the program and its version.
pub open spec fn version_text(version: Seq<char>) -> Seq<char> {
    "uptime "@ + version + "\n"@
}

/// The help text: the version line, how to call the program, and the usage
/// text of the flags.
pub open spec fn help_text(version: Seq<char>) -> Seq<char> {
    version_text(version) + "\nUsage:\n  uptime [OPTION]\n\n"@ + getopts_usage(
        uptime_flags(),
        brief_text(),
    ) + "\n"@
}

/// The text shown for the version flag.
pub fn print_version(version: &str) -> (text: String)
    ensures
        text@ == version_text(version@),
{
    let mut text: String = String::from_str("uptime ");
    text.append(version);
    text.append("\n");
    text
}

/// The text shown for the help flag.
pub fn print_help(version: &str) -> (text: String)
    ensures
        text@ == help_text(version@),
{
    let options: getopts::Options = uptime_options();
    let usage: String = usage_of(
        &options,
        "Print the current time, the length of time the system has been up,\n\
         the number of users on the system, and the average number of jobs\n\
         in the run queue over the last 1, 5 and 15 minutes.",
    );
    let mut text: String = print_version(version);
    text.append("\nUsage:\n  uptime [OPTION]\n\n");
    text.append(usage.as_str());
    text.append("\n");
    assert(text@ =~= help_text(version@));
    text
}

} // verus!
