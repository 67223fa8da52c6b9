use albino::policy::{require_gen_target, require_target, Failure, FailureKind};
use albino::router::{
    child_exit_code, no_such_command, process, route, route_invocation, sibling_program, Route,
    RouterPlan, SpawnOutcome,
};
use albino::util::Target;
use albino::version;

fn s(x: &str) -> String {
    x.to_string()
}

fn args(xs: &[&str]) -> Vec<String> {
    xs.iter().map(|x| x.to_string()).collect()
}

#[test]
fn exit_codes_distinguish_failure_classes() {
    assert_eq!(Failure::new(FailureKind::Argument, s("a")).exit_code(), 1);
    assert_eq!(Failure::new(FailureKind::Resource, s("r")).exit_code(), 1);
    assert_eq!(Failure::new(FailureKind::Compile, s("c")).exit_code(), 1);
    assert_eq!(Failure::new(FailureKind::Decompile, s("d")).exit_code(), 1);
    assert_eq!(Failure::new(FailureKind::Runtime, s("x")).exit_code(), 2);
    assert_eq!(Failure::new(FailureKind::Router, s("n")).exit_code(), 127);
}

#[test]
fn compile_family_requires_any_resolved_target() {
    assert_eq!(require_target(Some(Target::Assembly)), Ok(Target::Assembly));
    assert_eq!(require_target(Some(Target::Brainfuck)), Ok(Target::Brainfuck));
    assert_eq!(require_target(Some(Target::DT)), Ok(Target::DT));
    assert_eq!(require_target(Some(Target::Ook)), Ok(Target::Ook));
    assert_eq!(require_target(Some(Target::Whitespace)), Ok(Target::Whitespace));
    let f = require_target(None).unwrap_err();
    assert_eq!(f.kind, FailureKind::Argument);
    assert_eq!(f.message, "syntax should be \"asm\", \"bf\", \"dt\", \"ook\" or \"ws\" (default: ws)");
    assert_eq!(f.exit_code(), 1);
}

#[test]
fn generate_requires_a_decompilable_target() {
    assert_eq!(require_gen_target(Some(Target::Assembly)), Ok(Target::Assembly));
    assert_eq!(require_gen_target(Some(Target::DT)), Ok(Target::DT));
    assert_eq!(require_gen_target(Some(Target::Whitespace)), Ok(Target::Whitespace));
    for t in [Some(Target::Brainfuck), Some(Target::Ook), None] {
        let f = require_gen_target(t).unwrap_err();
        assert_eq!(f.kind, FailureKind::Argument);
        assert_eq!(f.message, "syntax should be \"asm\", \"dt\" or \"ws\" (default: ws)");
    }
}

#[test]
fn version_renders_the_release() {
    assert_eq!(version(), "0.1.0-pre");
}

#[test]
fn router_splits_subcommand_and_forwards_arguments() {
    let (cmd, rest) = process(&args(&["albino", "run", "-s", "bf", "prog.bf"]));
    assert_eq!(cmd, "run");
    assert_eq!(rest, args(&["-s", "bf", "prog.bf"]));
    assert_eq!(route(&cmd), Route::Delegate(s("run")));
    assert_eq!(sibling_program(&cmd, ""), "albino-run");
    assert_eq!(sibling_program(&cmd, ".exe"), "albino-run.exe");
}

#[test]
fn router_without_subcommand_asks_for_help() {
    let (cmd, rest) = process(&args(&["albino"]));
    assert_eq!(cmd, "--help");
    assert!(rest.is_empty());
    assert_eq!(route(&cmd), Route::Help);
}

#[test]
fn router_recognises_help_and_version_tokens() {
    for t in ["--help", "-h", "help", "-?"] {
        assert_eq!(route(&s(t)), Route::Help);
    }
    for t in ["--version", "-v", "version"] {
        assert_eq!(route(&s(t)), Route::Version);
    }
    assert_eq!(route(&s("build")), Route::Delegate(s("build")));
}

#[test]
fn child_exit_codes_propagate_unchanged() {
    assert_eq!(child_exit_code(&SpawnOutcome::Exited(0)), 0);
    assert_eq!(child_exit_code(&SpawnOutcome::Exited(3)), 3);
    assert_eq!(child_exit_code(&SpawnOutcome::Signaled(9)), 9);
    assert_eq!(child_exit_code(&SpawnOutcome::SpawnFailed), 127);
    let f = no_such_command();
    assert_eq!(f.kind, FailureKind::Router);
    assert_eq!(f.message, "no such command.");
    assert_eq!(f.exit_code(), 127);
}

#[test]
fn router_plan_spawns_sibling_with_forwarded_arguments() {
    let plan = route_invocation(&args(&["albino", "run", "-s", "bf", "prog.bf"]), "");
    assert_eq!(
        plan,
        RouterPlan::Spawn { program: s("albino-run"), forwarded: args(&["-s", "bf", "prog.bf"]) }
    );
    assert_eq!(route_invocation(&args(&["albino"]), ""), RouterPlan::Help);
    assert_eq!(route_invocation(&args(&["albino", "-?"]), ""), RouterPlan::Help);
    assert_eq!(route_invocation(&args(&["albino", "version"]), ""), RouterPlan::Version);
}
