use vstd::prelude::*;

verus! {

/// Exit status of a failed run.
pub const EXIT_CODE_ERROR: i32 = 1;
/// Exit status of a successful run.
pub const EXIT_CODE_SUCCESS: i32 = 0;
/// The usage line printed on bad invocations.
pub const USAGE_MESSAGE: &'static str = " usage: chunkdump [-hmv] [-o output_file] file";

/// What a run was asked to do.
#[derive(PartialEq, Debug, Clone)]
pub struct Args {
    pub mandatory: bool,
    pub input_file_path: String,
    pub output_file_path: Option<String>,
}

/// The command line switches, options and positional argument.
#[derive(PartialEq, Debug, Clone)]
pub struct CliArguments {
    pub version: bool,
    pub mandatory: bool,
    pub output_file: Option<String>,
    pub file: Option<String>,
}

/// The views of an optional string.
pub open spec fn optional_text(s: Option<String>) -> Option<Seq<char>> {
    match s {
        Some(t) => Some(t@),
        None => None,
    }
}

/// Turns the command line into the run's arguments. A request for the
/// version, or a missing input file, ends the program before this (by
/// printing the version, or the usage, and exiting).
pub fn process_cli_arguments(args: CliArguments) -> (result: Args)
    requires
        !args.version,
        args.file is Some,
    ensures
        result.mandatory == args.mandatory,
        Some(result.input_file_path@) == optional_text(args.file),
        optional_text(result.output_file_path) == optional_text(args.output_file),
{
    let input_file_path = match args.file {
        Some(path) => path,
        None => String::new(),
    };
    Args { mandatory: args.mandatory, input_file_path, output_file_path: args.output_file }
}

} // verus!
