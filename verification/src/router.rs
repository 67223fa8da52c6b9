//! The top-level subcommand router's decisions: splitting the raw
//! argument list into a subcommand name and the arguments forwarded to
//! it, choosing between the help text, the version line and a sibling
//! executable, and translating the child's end into this process's
//! exit code.
use vstd::prelude::*;

use crate::policy::{Failure, FailureKind};

verus! {

/// Where the router sends one invocation: its own help text, its own
/// version line, or the named subcommand's sibling executable.
#[derive(Clone, PartialEq, Eq, Debug)]
pub enum Route {
    Help,
    Version,
    Delegate(String),
}

/// How a delegated child process ended: a normal exit with a code, a
/// signal, or no child at all because none could be spawned.
#[derive(Clone, Copy, PartialEq, Eq, Debug)]
pub enum SpawnOutcome {
    Exited(i32),
    Signaled(i32),
    SpawnFailed,
}

/// The tokens that select the router's own help text.
pub open spec fn help_token(c: Seq<char>) -> bool {
    c == "--help"@ || c == "-h"@ || c == "help"@ || c == "-?"@
}

/// The tokens that select the router's own version line.
pub open spec fn version_token(c: Seq<char>) -> bool {
    c == "--version"@ || c == "-v"@ || c == "version"@
}

/// Splits a raw argument list into the subcommand name and the
/// arguments forwarded to it verbatim: the program name is dropped, a
/// missing subcommand asks for help, and everything after the name is
/// passed through unchanged.
pub fn process(args: &Vec<String>) -> (r: (String, Vec<String>))
    ensures
        args@.len() <= 1 ==> r.0@ == "--help"@ && r.1@.len() == 0,
        args@.len() > 1 ==> r.0 == args@[1] && r.1@ == args@.subrange(2, args@.len() as int),
{
    if args.len() <= 1 {
        (String::from_str("--help"), Vec::new())
    } else {
        let head = args[1].clone();
        let mut rest: Vec<String> = Vec::new();
        let mut i: usize = 2;
        while i < args.len()
            invariant
                2 <= i <= args.len(),
                rest@ == args@.subrange(2, i as int),
            decreases args.len() - i,
        {
            rest.push(args[i].clone());
            proof {
                assert(rest@ =~= args@.subrange(2, i + 1));
            }
            i = i + 1;
        }
        (head, rest)
    }
}

/// Chooses where one invocation goes: the help tokens win first, then
/// the version tokens, and any other name is delegated unchanged.
pub fn route(cmd: &String) -> (r: Route)
    ensures
        help_token(cmd@) ==> r == Route::Help,
        !help_token(cmd@) && version_token(cmd@) ==> r == Route::Version,
        !help_token(cmd@) && !version_token(cmd@) ==> (r matches Route::Delegate(c) && c == *cmd),
{
    let c = cmd.as_str();
    if crate::util::str_eq(c, "--help") || crate::util::str_eq(c, "-h") || crate::util::str_eq(
        c,
        "help",
    ) || crate::util::str_eq(c, "-?") {
        Route::Help
    } else if crate::util::str_eq(c, "--version") || crate::util::str_eq(c, "-v")
        || crate::util::str_eq(c, "version") {
        Route::Version
    } else {
        Route::Delegate(cmd.clone())
    }
}

/// The sibling executable a subcommand delegates to: the fixed prefix,
/// the subcommand name, and the platform's executable suffix.
pub fn sibling_program(cmd: &String, exe_suffix: &str) -> (r: String)
    ensures
        r@ == "albino-"@ + cmd@ + exe_suffix@,
{
    let mut s = String::from_str("albino-");
    s.append(cmd.as_str());
    s.append(exe_suffix);
    s
}

/// One routed invocation, fully decided: print the router's own help
/// text, print the version line, or spawn the named sibling with the
/// forwarded arguments.
#[derive(Clone, PartialEq, Eq, Debug)]
pub enum RouterPlan {
    Help,
    Version,
    Spawn { program: String, forwarded: Vec<String> },
}

/// The router's whole decision for one raw argument list: the
/// subcommand name is the token after the program name (a missing one
/// asks for help), the help and version tokens are answered in place,
/// and any other name is delegated to the sibling executable named
/// after it, with every argument after the name forwarded verbatim.
pub fn route_invocation(args: &Vec<String>, exe_suffix: &str) -> (r: RouterPlan)
    ensures
        args@.len() <= 1 ==> r is Help,
        args@.len() > 1 && help_token(args@[1]@) ==> r is Help,
        (args@.len() > 1 && !help_token(args@[1]@) && version_token(args@[1]@)) ==> r is Version,
        (args@.len() > 1 && !help_token(args@[1]@) && !version_token(args@[1]@)) ==> (r matches
            RouterPlan::Spawn { program, forwarded } && program@ == "albino-"@ + args@[1]@
            + exe_suffix@ && forwarded@ == args@.subrange(2, args@.len() as int)),
{
    let (cmd, rest) = process(args);
    match route(&cmd) {
        Route::Help => RouterPlan::Help,
        Route::Version => RouterPlan::Version,
        Route::Delegate(name) => RouterPlan::Spawn {
            program: sibling_program(&name, exe_suffix),
            forwarded: rest,
        },
    }
}

/// The failure reported when no sibling executable could be spawned.
pub fn no_such_command() -> (r: Failure)
    ensures
        r.kind == FailureKind::Router,
        r.message@ == "no such command."@,
{
    Failure::new(FailureKind::Router, String::from_str("no such command."))
}

/// Translates the child's end into this process's exit code: a child's
/// code, zero or not, is propagated unchanged, a signal's number
/// likewise, and a failure to spawn exits with the command-not-found
/// convention.
pub fn child_exit_code(o: &SpawnOutcome) -> (r: i32)
    ensures
        (o matches SpawnOutcome::Exited(i) ==> r == i),
        (o matches SpawnOutcome::Signaled(i) ==> r == i),
        (o is SpawnFailed ==> r == 127),
{
    match o {
        SpawnOutcome::Exited(i) => *i,
        SpawnOutcome::Signaled(i) => *i,
        SpawnOutcome::SpawnFailed => 127,
    }
}

} // verus!
