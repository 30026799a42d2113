//! Which operation was started: the program's own name decides.
//!
//! The resource ships one binary under the names `check`, `in` and `out`,
//! optionally below `./`, `/opt/`, `./resource/` or `/opt/resource/`.
use vstd::prelude::*;

use crate::pattern::{compile_regex, opt_view, regex_compiles, regex_group};

verus! {

/// The pattern that the program's path must match; its first group is the
/// name of the operation.
pub const PROGRAM_PATTERN: &'static str = "^(?:(?:\\./|/opt/)(?:resource/)?)?([^/]+)$";

/// The three operations of a concourse resource.
#[derive(Debug, Clone, Copy, PartialEq, Eq, Structural)]
pub enum Command {
    Check,
    In,
    Out,
}

/// An operation together with what it needs from the command line.
#[derive(Debug, Clone, PartialEq, Eq)]
pub enum Invocation {
    Check,
    In { path: String },
    Out { path: String },
}

/// Why no operation could be started.
#[derive(Debug, Clone, PartialEq, Eq)]
pub enum DispatchError {
    /// The argument list is empty: there is no program name.
    NoProgramName,
    /// The program pattern itself was refused by the regex engine.
    PatternRejected,
    /// The program does not sit where the resource is installed.
    NotInResourcePath { name: String },
    /// The pattern matched but yielded no operation name.
    NoCapture,
    /// The program is named neither `check`, `in` nor `out`.
    UnknownCommand { command: String },
    /// `in` and `out` need a directory as their first argument.
    MissingArgument { operation: Command },
}

/// The views of a list of strings.
pub open spec fn views(args: Seq<String>) -> Seq<Seq<char>> {
    args.map_values(|s: String| s@)
}

/// What starting the program amounts to, given the program name, what the
/// program pattern captured of it, and the argument list (name first).
pub open spec fn invocation_outcome(
    r: Result<Invocation, DispatchError>,
    name: Seq<char>,
    capture: Option<Option<Seq<char>>>,
    args: Seq<Seq<char>>,
) -> bool {
    match capture {
        None => r matches Err(DispatchError::NotInResourcePath { name: n }) && n@ == name,
        Some(None) => r matches Err(DispatchError::NoCapture),
        Some(Some(cmd)) => if cmd == "check"@ {
            r matches Ok(Invocation::Check)
        } else if cmd == "in"@ {
            if args.len() >= 2 {
                r matches Ok(Invocation::In { path }) && path@ == args[1]
            } else {
                r matches Err(DispatchError::MissingArgument { operation: Command::In })
            }
        } else if cmd == "out"@ {
            if args.len() >= 2 {
                r matches Ok(Invocation::Out { path }) && path@ == args[1]
            } else {
                r matches Err(DispatchError::MissingArgument { operation: Command::Out })
            }
        } else {
            r matches Err(DispatchError::UnknownCommand { command: c }) && c@ == cmd
        },
    }
}

/// Whether a string spells a given word.
fn spells(s: &String, word: &str) -> (b: bool)
    ensures
        b == (s@ == word@),
{
    let w = word.to_owned();
    s.eq(&w)
}

/// Decides the invocation from what the program pattern captured of the
/// program `name`; `args` is the whole argument list, the name first.
pub fn invocation_from_capture(
    name: &str,
    capture: Option<Option<String>>,
    args: &Vec<String>,
) -> (r: Result<Invocation, DispatchError>)
    ensures
        invocation_outcome(
            r,
            name@,
            match capture {
                Some(g) => Some(opt_view(g)),
                None => None,
            },
            views(args@),
        ),
{
    match capture {
        None => Err(DispatchError::NotInResourcePath { name: name.to_owned() }),
        Some(None) => Err(DispatchError::NoCapture),
        Some(Some(cmd)) => {
            if spells(&cmd, "check") {
                Ok(Invocation::Check)
            } else if spells(&cmd, "in") {
                if args.len() >= 2 {
                    Ok(Invocation::In { path: args[1].clone() })
                } else {
                    Err(DispatchError::MissingArgument { operation: Command::In })
                }
            } else if spells(&cmd, "out") {
                if args.len() >= 2 {
                    Ok(Invocation::Out { path: args[1].clone() })
                } else {
                    Err(DispatchError::MissingArgument { operation: Command::Out })
                }
            } else {
                Err(DispatchError::UnknownCommand { command: cmd })
            }
        },
    }
}

/// Decides which operation to run from the argument list of the program
/// (its name first): the name is matched against [`PROGRAM_PATTERN`].
pub fn dispatch(args: &Vec<String>) -> (r: Result<Invocation, DispatchError>)
    ensures
        args.len() == 0 ==> r matches Err(DispatchError::NoProgramName),
        args.len() > 0 && !regex_compiles(PROGRAM_PATTERN@) ==> r matches Err(
            DispatchError::PatternRejected,
        ),
        args.len() > 0 && regex_compiles(PROGRAM_PATTERN@) ==> invocation_outcome(
            r,
            args[0]@,
            regex_group(PROGRAM_PATTERN@, args[0]@, 1),
            views(args@),
        ),
{
    if args.len() == 0 {
        return Err(DispatchError::NoProgramName);
    }
    let name = args[0].as_str();
    let re = match compile_regex(PROGRAM_PATTERN) {
        Ok(re) => re,
        Err(_) => return Err(DispatchError::PatternRejected),
    };
    let capture = re.capture(name, 1);
    invocation_from_capture(name, capture, args)
}

} // verus!
