//! Uniform error taxonomy and process exit-code policy, shared by every
//! subcommand: each failure class carries a message for the user and maps
//! to one fixed exit code.
use vstd::prelude::*;

use crate::util::Target;

verus! {

/// The classes of terminal failure an invocation can end in.
#[derive(Clone, Copy, PartialEq, Eq, Structural, Debug)]
pub enum FailureKind {
    /// Malformed option syntax or an unrecognised explicit syntax token.
    Argument,
    /// A file could not be opened or created for input or output.
    Resource,
    /// The compiler capability rejected the source.
    Compile,
    /// The decompiler capability rejected the bytecode.
    Decompile,
    /// The virtual machine failed while executing bytecode.
    Runtime,
    /// The router found no executable for the requested subcommand.
    Router,
}

/// A terminal failure: its class and the message reported to the user.
#[derive(Clone, PartialEq, Eq, Debug)]
pub struct Failure {
    pub kind: FailureKind,
    pub message: String,
}

/// The exit code each failure class maps to: ordinary failures exit
/// with 1, a bytecode execution failure with 2 (so callers can tell
/// "failed to build" from "built but failed to run"), and an unknown
/// subcommand with 127, the shell convention for command-not-found.
pub open spec fn exit_code_spec(kind: FailureKind) -> i32 {
    match kind {
        FailureKind::Argument => 1,
        FailureKind::Resource => 1,
        FailureKind::Compile => 1,
        FailureKind::Decompile => 1,
        FailureKind::Runtime => 2,
        FailureKind::Router => 127,
    }
}

impl Failure {
    pub fn new(kind: FailureKind, message: String) -> (r: Failure)
        ensures
            r.kind == kind,
            r.message == message,
    {
        Failure { kind, message }
    }

    /// The process exit status this failure terminates the invocation with.
    pub fn exit_code(&self) -> (r: i32)
        ensures
            r == exit_code_spec(self.kind),
    {
        match self.kind {
            FailureKind::Argument => 1,
            FailureKind::Resource => 1,
            FailureKind::Compile => 1,
            FailureKind::Decompile => 1,
            FailureKind::Runtime => 2,
            FailureKind::Router => 127,
        }
    }
}

/// The message printed when the `build`/`run` family is left without a
/// resolved target.
pub open spec fn syntax_error_message() -> Seq<char> {
    "syntax should be \"asm\", \"bf\", \"dt\", \"ook\" or \"ws\" (default: ws)"@
}

/// The message printed when the generate direction is left without a
/// target it can decompile to.
pub open spec fn gen_syntax_error_message() -> Seq<char> {
    "syntax should be \"asm\", \"dt\" or \"ws\" (default: ws)"@
}

/// The compile and run family needs a resolved target: any resolved
/// syntax will do, and an unresolved one is an argument error naming
/// the accepted set.
pub fn require_target(target: Option<Target>) -> (r: Result<Target, Failure>)
    ensures
        match target {
            Some(t) => r == Ok::<Target, Failure>(t),
            None => r matches Err(f) && f.kind == FailureKind::Argument && f.message@
                == syntax_error_message(),
        },
{
    match target {
        Some(t) => Ok(t),
        None => Err(
            Failure::new(
                FailureKind::Argument,
                String::from_str("syntax should be \"asm\", \"bf\", \"dt\", \"ook\" or \"ws\" (default: ws)"),
            ),
        ),
    }
}

/// Whether a decompiler capability exists for the target: only the
/// Assembly, DT and Whitespace syntaxes can be generated from bytecode.
pub open spec fn decompilable(t: Target) -> bool {
    t == Target::Assembly || t == Target::DT || t == Target::Whitespace
}

/// The generate direction needs a target with a decompiler: Brainfuck
/// and Ook have none, and an unresolved target is an argument error
/// naming the accepted set.
pub fn require_gen_target(target: Option<Target>) -> (r: Result<Target, Failure>)
    ensures
        match target {
            Some(t) => if decompilable(t) {
                r == Ok::<Target, Failure>(t)
            } else {
                r matches Err(f) && f.kind == FailureKind::Argument && f.message@
                    == gen_syntax_error_message()
            },
            None => r matches Err(f) && f.kind == FailureKind::Argument && f.message@
                == gen_syntax_error_message(),
        },
{
    match target {
        Some(Target::Assembly) => Ok(Target::Assembly),
        Some(Target::DT) => Ok(Target::DT),
        Some(Target::Whitespace) => Ok(Target::Whitespace),
        _ => Err(
            Failure::new(
                FailureKind::Argument,
                String::from_str("syntax should be \"asm\", \"dt\" or \"ws\" (default: ws)"),
            ),
        ),
    }
}

} // verus!
