//! The commands of the program, and where its repositories live.

use vstd::prelude::*;
use vstd::string::StringExecFns;

verus! {

/// What the program is asked to do.
#[derive(Debug, PartialEq, Eq)]
pub enum Command {
    /// Clone the repository of a package.
    Clone { package_name: String },
    /// Check every repository and report the new commits.
    Fetch,
    /// Search the registry for packages.
    Search { expression: String },
    /// Pull the repositories named, or all of them where none is named.
    Pull { package_names: Vec<String> },
}

/// The command that is run: the one given, or a fetch where none is.
pub fn command_or_default(command: Option<Command>) -> (run: Command)
    ensures
        run == match command {
            Some(c) => c,
            None => Command::Fetch,
        },
{
    match command {
        Some(c) => c,
        None => Command::Fetch,
    }
}

/// How the line begins that tells of a command that failed as a whole.
pub open spec fn failure_prefix(command: Command) -> Seq<char> {
    match command {
        Command::Clone { .. } => "Error while cloning: "@,
        Command::Fetch => "Error while fetching: "@,
        Command::Search { .. } => "Error while searching: "@,
        Command::Pull { .. } => "Error while pulling: "@,
    }
}

/// The line for the error stream that tells why `command` failed. It is
/// told, and the program still ends as one that succeeded.
pub fn command_failure(command: &Command, reason: &str) -> (line: String)
    ensures
        line@ == failure_prefix(*command) + reason@,
{
    let prefix = match command {
        Command::Clone { .. } => "Error while cloning: ",
        Command::Fetch => "Error while fetching: ",
        Command::Search { .. } => "Error while searching: ",
        Command::Pull { .. } => "Error while pulling: ",
    };
    String::from_str(prefix).concat(reason)
}

/// The directory below the program's data directory that holds the
/// repositories unless another root is given.
pub fn default_directory() -> (d: &'static str)
    ensures
        d@ == "repos"@,
{
    "repos"
}

/// The root of the repositories: the one given on the command line, or
/// `default_root`, which is [`default_directory`] below the program's
/// data directory.
pub fn get_repo_path<P>(repos: Option<P>, default_root: P) -> (root: P)
    ensures
        root == match repos {
            Some(given) => given,
            None => default_root,
        },
{
    match repos {
        Some(given) => given,
        None => default_root,
    }
}

} // verus!
