//! Command-line arguments of the agent.
//!
//! ```text
//! esp_agent [OPTIONS] <file.esp|directory>
//!
//!     -h, --help              Show help message
//!     -q, --quiet             Suppress console output
//!     -o, --output <file>     Write results to JSON file
//!     -f, --format <format>   Output format: full (default), summary,
//!                             attestation, assessor
//! ```

use vstd::prelude::*;
use crate::config::{format_name, OutputFormat, ScanConfig};
use crate::model::concat3;
use crate::text::{chars_eq, chars_of, opt_view};

verus! {

/// What the arguments ask for.
#[derive(Debug)]
pub enum CliResult {
    /// Show the help message
    Help,
    /// The arguments are not valid
    Error(String),
    /// Run a scan
    Run(ScanConfig),
}

/// `CliResult` over views.
pub enum CliOutcome {
    Help,
    Error(Seq<char>),
    Run { input: Seq<char>, output: Option<Seq<char>>, format: OutputFormat, quiet: bool },
}

/// The format a command-line name selects.
pub open spec fn format_of_name(s: Seq<char>) -> Option<OutputFormat> {
    if s == "full"@ {
        Some(OutputFormat::Full)
    } else if s == "summary"@ {
        Some(OutputFormat::Summary)
    } else if s == "attestation"@ {
        Some(OutputFormat::Attestation)
    } else if s == "assessor"@ {
        Some(OutputFormat::Assessor)
    } else {
        None
    }
}

pub open spec fn is_help(a: Seq<char>) -> bool {
    a == "-h"@ || a == "--help"@
}

pub open spec fn is_quiet(a: Seq<char>) -> bool {
    a == "-q"@ || a == "--quiet"@
}

pub open spec fn is_output(a: Seq<char>) -> bool {
    a == "-o"@ || a == "--output"@
}

pub open spec fn is_format(a: Seq<char>) -> bool {
    a == "-f"@ || a == "--format"@
}

/// Reads the arguments from position `i` on, with what was read before.
pub open spec fn parse_from(
    args: Seq<Seq<char>>,
    i: int,
    input: Option<Seq<char>>,
    output: Option<Seq<char>>,
    format: OutputFormat,
    quiet: bool,
) -> CliOutcome
    decreases args.len() - i,
{
    if i < 0 || i >= args.len() {
        match input {
            None => CliOutcome::Error("No input file or directory specified"@),
            Some(p) => CliOutcome::Run { input: p, output, format, quiet },
        }
    } else {
        let a = args[i];
        if is_help(a) {
            CliOutcome::Help
        } else if is_quiet(a) {
            parse_from(args, i + 1, input, output, format, true)
        } else if is_output(a) {
            if i + 1 < args.len() {
                parse_from(args, i + 2, input, Some(args[i + 1]), format, quiet)
            } else {
                CliOutcome::Error("Missing value for "@ + a)
            }
        } else if is_format(a) {
            if i + 1 < args.len() {
                match format_of_name(args[i + 1]) {
                    Some(f) => parse_from(args, i + 2, input, output, f, quiet),
                    None => CliOutcome::Error("Unknown output format: "@ + args[i + 1]),
                }
            } else {
                CliOutcome::Error("Missing value for "@ + a)
            }
        } else if a.len() > 0 && a[0] == '-' {
            CliOutcome::Error("Unknown option: "@ + a)
        } else if input is Some {
            CliOutcome::Error("Multiple input paths specified"@)
        } else {
            parse_from(args, i + 1, Some(a), output, format, quiet)
        }
    }
}

/// The views of the arguments.
pub open spec fn arg_views(args: Seq<String>) -> Seq<Seq<char>> {
    args.map_values(|s: String| s@)
}

/// What a `CliResult` says, over views.
pub open spec fn cli_view(r: CliResult) -> CliOutcome {
    match r {
        CliResult::Help => CliOutcome::Help,
        CliResult::Error(m) => CliOutcome::Error(m@),
        CliResult::Run(c) => CliOutcome::Run {
            input: c.input_path@,
            output: opt_view(c.output_file),
            format: c.output_format,
            quiet: c.quiet,
        },
    }
}

fn arg_is(a: &String, lit: &str) -> (res: bool)
    ensures
        res == (a@ == lit@),
{
    chars_eq(&chars_of(a.as_str()), &chars_of(lit))
}

impl OutputFormat {
    /// The format a command-line name selects.
    pub fn from_name(s: &String) -> (res: Option<OutputFormat>)
        ensures
            res == format_of_name(s@),
    {
        if arg_is(s, "full") {
            Some(OutputFormat::Full)
        } else if arg_is(s, "summary") {
            Some(OutputFormat::Summary)
        } else if arg_is(s, "attestation") {
            Some(OutputFormat::Attestation)
        } else if arg_is(s, "assessor") {
            Some(OutputFormat::Assessor)
        } else {
            None
        }
    }
}

/// Parses the command line; `args[0]` is the program's name. Options come
/// in any order around the one input path; `--help` wins over what follows
/// it; the format defaults to full.
pub fn parse_args(args: &Vec<String>) -> (res: CliResult)
    ensures
        cli_view(res) == parse_from(arg_views(args@), 1, None, None, OutputFormat::Full, false),
{
    let ghost views = arg_views(args@);
    let ghost target = parse_from(views, 1, None, None, OutputFormat::Full, false);
    let mut input: Option<String> = None;
    let mut output: Option<String> = None;
    let mut format = OutputFormat::Full;
    let mut quiet = false;
    let mut i: usize = 1;
    while i < args.len()
        invariant
            views == arg_views(args@),
            views.len() == args@.len(),
            target == parse_from(views, 1, None, None, OutputFormat::Full, false),
            1 <= i,
            target == parse_from(
                views,
                i as int,
                opt_view(input),
                opt_view(output),
                format,
                quiet,
            ),
        decreases args.len() - i,
    {
        let a = &args[i];
        assert(views[i as int] == a@);
        proof {
            reveal_strlit("");
        }
        if arg_is(a, "-h") || arg_is(a, "--help") {
            return CliResult::Help;
        } else if arg_is(a, "-q") || arg_is(a, "--quiet") {
            quiet = true;
            i = i + 1;
        } else if arg_is(a, "-o") || arg_is(a, "--output") {
            if i + 1 < args.len() {
                assert(views[i + 1] == args@[i + 1]@);
                output = Some(args[i + 1].clone());
                i = i + 2;
            } else {
                return CliResult::Error(concat3("Missing value for ", a.as_str(), ""));
            }
        } else if arg_is(a, "-f") || arg_is(a, "--format") {
            if i + 1 < args.len() {
                assert(views[i + 1] == args@[i + 1]@);
                match OutputFormat::from_name(&args[i + 1]) {
                    Some(f) => {
                        format = f;
                        i = i + 2;
                    },
                    None => {
                        return CliResult::Error(
                            concat3("Unknown output format: ", args[i + 1].as_str(), ""),
                        );
                    },
                }
            } else {
                return CliResult::Error(concat3("Missing value for ", a.as_str(), ""));
            }
        } else if starts_with_dash(a) {
            return CliResult::Error(concat3("Unknown option: ", a.as_str(), ""));
        } else if input.is_some() {
            return CliResult::Error("Multiple input paths specified".to_string());
        } else {
            input = Some(a.clone());
            i = i + 1;
        }
    }
    match input {
        None => CliResult::Error("No input file or directory specified".to_string()),
        Some(p) => CliResult::Run(
            ScanConfig { input_path: p, output_file: output, output_format: format, quiet },
        ),
    }
}

fn starts_with_dash(a: &String) -> (res: bool)
    ensures
        res == (a@.len() > 0 && a@[0] == '-'),
{
    let cs = chars_of(a.as_str());
    cs.len() > 0 && cs[0] == '-'
}


/// The documented names of the output formats select them.
pub proof fn law_format_names()
    ensures
        format_of_name("full"@) == Some(OutputFormat::Full),
        format_of_name("summary"@) == Some(OutputFormat::Summary),
        format_of_name("attestation"@) == Some(OutputFormat::Attestation),
        format_of_name("assessor"@) == Some(OutputFormat::Assessor),
{
    reveal_strlit("full");
    reveal_strlit("summary");
    reveal_strlit("attestation");
    reveal_strlit("assessor");
    assert("full"@.len() == 4 && "summary"@.len() == 7);
    assert("attestation"@.len() == 11 && "assessor"@.len() == 8);
}

/// Each option, in its short or its long form, does what the usage text
/// says, wherever it stands: `-q`/`--quiet` sets quiet and reading goes on;
/// `-h`/`--help` asks for help; `-o`/`--output` takes the next argument as
/// the output file; `-f`/`--format` takes the next argument as the format;
/// an argument that is not an option is the input path, or an error when
/// one was already given.
pub proof fn law_options(
    args: Seq<Seq<char>>,
    i: int,
    input: Option<Seq<char>>,
    output: Option<Seq<char>>,
    format: OutputFormat,
    quiet: bool,
)
    requires
        0 <= i < args.len(),
    ensures
        (args[i] == "-q"@ || args[i] == "--quiet"@) ==> parse_from(args, i, input, output, format, quiet)
            == parse_from(args, i + 1, input, output, format, true),
        (args[i] == "-h"@ || args[i] == "--help"@) ==> parse_from(args, i, input, output, format, quiet)
            == CliOutcome::Help,
        (args[i] == "-o"@ || args[i] == "--output"@) && i + 1 < args.len() ==> parse_from(
            args,
            i,
            input,
            output,
            format,
            quiet,
        ) == parse_from(args, i + 2, input, Some(args[i + 1]), format, quiet),
        (args[i] == "-f"@ || args[i] == "--format"@) && i + 1 < args.len() ==> parse_from(
            args,
            i,
            input,
            output,
            format,
            quiet,
        ) == match format_of_name(args[i + 1]) {
            Some(g) => parse_from(args, i + 2, input, output, g, quiet),
            None => CliOutcome::Error("Unknown output format: "@ + args[i + 1]),
        },
        args[i].len() > 0 && args[i][0] != '-' && input is None ==> parse_from(
            args,
            i,
            input,
            output,
            format,
            quiet,
        ) == parse_from(args, i + 1, Some(args[i]), output, format, quiet),
        args[i].len() > 0 && args[i][0] != '-' && input is Some ==> parse_from(
            args,
            i,
            input,
            output,
            format,
            quiet,
        ) == CliOutcome::Error("Multiple input paths specified"@),
{
    reveal_strlit("-q");
    reveal_strlit("--quiet");
    reveal_strlit("-h");
    reveal_strlit("--help");
    reveal_strlit("-o");
    reveal_strlit("--output");
    reveal_strlit("-f");
    reveal_strlit("--format");
    // The short forms differ in their second character, the long ones in
    // their length or third character; all start with '-'.
    let short = seq!["-q"@, "-h"@, "-o"@, "-f"@];
    let long = seq!["--quiet"@, "--help"@, "--output"@, "--format"@];
    assert(short[0][1] == 'q' && short[1][1] == 'h' && short[2][1] == 'o' && short[3][1] == 'f');
    assert(long[0].len() == 7 && long[1].len() == 6 && long[2].len() == 8 && long[3].len() == 8);
    assert(long[2][2] == 'o' && long[3][2] == 'f');
    assert(short[0].len() == 2 && short[1].len() == 2 && short[2].len() == 2 && short[3].len() == 2);
    assert(short[0][0] == '-' && short[1][0] == '-' && short[2][0] == '-' && short[3][0] == '-');
    assert(long[0][0] == '-' && long[1][0] == '-' && long[2][0] == '-' && long[3][0] == '-');
}

/// When the arguments run out, the scan runs on the input path with what
/// the options set, or fails when no input path was given.
pub proof fn law_end_of_arguments(
    args: Seq<Seq<char>>,
    input: Option<Seq<char>>,
    output: Option<Seq<char>>,
    format: OutputFormat,
    quiet: bool,
)
    ensures
        parse_from(args, args.len() as int, input, output, format, quiet) == match input {
            Some(p) => CliOutcome::Run { input: p, output, format, quiet },
            None => CliOutcome::Error("No input file or directory specified"@),
        },
{
}

} // verus!
