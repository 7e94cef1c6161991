//! Decisions of the command-line shim.
//!
//! The shim takes either a single positional argument — the path of the
//! script to run — or the version flag. What to do with a given argument
//! vector, and with what exit code to leave, is decided here; the shim itself
//! only reads the arguments, prints, and runs the chosen script.

use vstd::prelude::*;
use vstd::string::StringExecFns;

verus! {

/// What a given invocation asks the shim to do.
pub enum CliAction {
    /// Print the single version line to standard output and exit cleanly.
    PrintVersion,
    /// Print the usage line to standard error and exit with a usage error.
    ShowUsage,
    /// Read the named script and run it.
    RunScript(String),
}

/// The program's name, as printed by the version line.
pub fn program_name() -> (name: &'static str)
    ensures
        name@ == "ion"@,
{
    "ion"
}

/// The program's version.
pub fn program_version() -> (version: &'static str)
    ensures
        version@ == "0.1.0"@,
{
    "0.1.0"
}

/// The one line the version flag prints: the program name, a space, the
/// version, and a newline.
pub fn version_line() -> (line: String)
    ensures
        line@ == "ion"@ + " "@ + "0.1.0"@ + "\n"@,
{
    let mut line = String::from_str(program_name());
    line.append(" ");
    line.append(program_version());
    line.append("\n");
    line
}

/// The usage line printed to standard error when no script is named: the
/// word `Usage:`, the program's invocation name, and the expected argument.
pub fn usage_line(program: &String) -> (line: String)
    ensures
        line@ == "Usage: "@ + program@ + " <js_file>"@,
{
    let mut line = String::from_str("Usage: ");
    line.append(program.as_str());
    line.append(" <js_file>");
    line
}

/// Decide what an argument vector asks for: with no argument, show usage;
/// with the version flag first, print the version; otherwise run the first
/// argument as a script path.
pub fn plan_invocation(args: &Vec<String>) -> (action: CliAction)
    ensures
        args@.len() < 2 ==> action is ShowUsage,
        args@.len() >= 2 && args@[1]@ == "--version"@ ==> action is PrintVersion,
        args@.len() >= 2 && args@[1]@ != "--version"@ ==> (action matches CliAction::RunScript(p)
            && p@ == args@[1]@),
{
    if args.len() < 2 {
        return CliAction::ShowUsage;
    }
    let flag = String::from_str("--version");
    if args[1] == flag {
        CliAction::PrintVersion
    } else {
        CliAction::RunScript(args[1].clone())
    }
}

/// The process exit code for an invocation: clean for the version line, the
/// usage error code when no script was named, and for a script run, clean
/// exactly when the script completed without an uncaught error.
pub fn exit_code_for(action: &CliAction, script_failed: bool) -> (code: i32)
    ensures
        action is PrintVersion ==> code == 0,
        action is ShowUsage ==> code == 1,
        action is RunScript ==> code == (if script_failed {
            1int
        } else {
            0int
        }),
{
    match action {
        CliAction::PrintVersion => 0,
        CliAction::ShowUsage => 1,
        CliAction::RunScript(_) => {
            if script_failed {
                1
            } else {
                0
            }
        },
    }
}

} // verus!
