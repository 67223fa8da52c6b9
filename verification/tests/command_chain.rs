use albino::command::{
    outcome_exit_code, BuildCommand, GenerateCommand, LoadCommand, Outcome, RunCommand,
    StreamSpec,
};
use albino::options::ParsedOptions;
use albino::policy::require_target;
use albino::util::Target;

struct Body;

fn s(x: &str) -> String {
    x.to_string()
}

fn args(xs: &[&str]) -> Vec<String> {
    xs.iter().map(|x| x.to_string()).collect()
}

#[test]
fn help_flag_suppresses_dispatch() {
    let cmd = RunCommand::new("run", "[-s syntax] [file]", Vec::new(), Body);
    match cmd.exec(&args(&["-h"])) {
        Outcome::Usage(text) => {
            assert!(text.starts_with("usage: albino run [-s syntax] [file]"));
        }
        _ => panic!("help must render usage and nothing else"),
    }
    let o = cmd.exec(&args(&["--help"]));
    assert!(matches!(o, Outcome::Usage(_)));
    assert_eq!(outcome_exit_code(&o), 0);
}

#[test]
fn usage_text_lists_options_in_registration_order() {
    let cmd = BuildCommand::new("build", "[-s syntax] [-o output] [file]", Vec::new(), Body);
    match cmd.exec(&args(&["-h"])) {
        Outcome::Usage(text) => {
            assert_eq!(
                text,
                "usage: albino build [-s syntax] [-o output] [file]\n\nOptions:\n\
                 \t-o name\n\t\tset output file name\n\
                 \t-s, --syntax syntax\n\t\tset input file syntax\n\
                 \t-h, --help\n"
            );
        }
        _ => panic!("help must render usage"),
    }
}

#[test]
fn malformed_arguments_are_fatal() {
    let cmd = RunCommand::new("run", "[-s syntax] [file]", Vec::new(), Body);
    let o = cmd.exec(&args(&["-q"]));
    match &o {
        Outcome::ParseFailed(msg) => assert_eq!(msg, "Unrecognized option: 'q'"),
        _ => panic!("an unregistered option must fail the parse"),
    }
    assert_eq!(outcome_exit_code(&o), 1);
}

#[test]
fn unregistered_value_option_fails_parse() {
    let cmd = LoadCommand::new("exec", "[file]", Vec::new(), Body);
    let o = cmd.exec(&args(&["-s", "bf"]));
    assert!(matches!(o, Outcome::ParseFailed(_)));
}

#[test]
fn run_dispatch_carries_parsed_options() {
    let cmd = RunCommand::new("run", "[-s syntax] [file]", Vec::new(), Body);
    match cmd.exec(&args(&["-s", "bf", "prog.ws"])) {
        Outcome::Dispatch(p) => {
            assert!(!p.help);
            assert_eq!(p.syntax, Some(s("bf")));
            assert_eq!(p.output, None);
            assert_eq!(p.free, vec![s("prog.ws")]);
            let (input, target) = RunCommand::<Body>::source_plan(&p);
            assert_eq!(input, StreamSpec::Named(s("prog.ws")));
            assert_eq!(target, Some(Target::Brainfuck));
        }
        _ => panic!("a plain invocation must dispatch"),
    }
}

#[test]
fn run_from_standard_input_defaults_to_whitespace() {
    let cmd = RunCommand::new("run", "[-s syntax] [file]", Vec::new(), Body);
    match cmd.exec(&args(&[])) {
        Outcome::Dispatch(p) => {
            let (input, target) = RunCommand::<Body>::source_plan(&p);
            assert_eq!(input, StreamSpec::Standard);
            assert_eq!(target, Some(Target::Whitespace));
            assert_eq!(require_target(target), Ok(Target::Whitespace));
        }
        _ => panic!("an empty invocation must dispatch"),
    }
}

#[test]
fn build_acquires_named_output() {
    let cmd = BuildCommand::new("build", "[-s syntax] [-o output] [file]", Vec::new(), Body);
    match cmd.exec(&args(&["-o", "out.bc", "in.bf"])) {
        Outcome::Dispatch(p) => {
            assert_eq!(BuildCommand::<Body>::output_plan(&p), StreamSpec::Named(s("out.bc")));
            let (input, target) = RunCommand::<Body>::source_plan(&p);
            assert_eq!(input, StreamSpec::Named(s("in.bf")));
            assert_eq!(target, Some(Target::Brainfuck));
        }
        _ => panic!("a build invocation must dispatch"),
    }
}

#[test]
fn build_without_output_writes_standard_output() {
    let cmd = BuildCommand::new("build", "[-s syntax] [-o output] [file]", Vec::new(), Body);
    match cmd.exec(&args(&["in.ook"])) {
        Outcome::Dispatch(p) => {
            assert_eq!(BuildCommand::<Body>::output_plan(&p), StreamSpec::Standard);
        }
        _ => panic!("a build invocation must dispatch"),
    }
}

#[test]
fn load_reads_file_or_standard_input() {
    let p = ParsedOptions { help: false, syntax: None, output: None, free: vec![s("prog.bc")] };
    assert_eq!(LoadCommand::<Body>::input_plan(&p), StreamSpec::Named(s("prog.bc")));
    let q = ParsedOptions { help: false, syntax: None, output: None, free: Vec::new() };
    assert_eq!(LoadCommand::<Body>::input_plan(&q), StreamSpec::Standard);
}

#[test]
fn generate_resolves_target_from_output_name() {
    let cmd = GenerateCommand::new("gen", "[-s syntax] [-o output] [file]", Vec::new(), Body);
    match cmd.exec(&args(&["-o", "prog.asm"])) {
        Outcome::Dispatch(p) => {
            let (input, output, target) = GenerateCommand::<Body>::generate_plan(&p);
            assert_eq!(input, StreamSpec::Standard);
            assert_eq!(output, StreamSpec::Named(s("prog.asm")));
            assert_eq!(target, Some(Target::Assembly));
        }
        _ => panic!("a gen invocation must dispatch"),
    }
    match cmd.exec(&args(&["-s", "dt", "prog.bc"])) {
        Outcome::Dispatch(p) => {
            let (input, output, target) = GenerateCommand::<Body>::generate_plan(&p);
            assert_eq!(input, StreamSpec::Named(s("prog.bc")));
            assert_eq!(output, StreamSpec::Standard);
            assert_eq!(target, Some(Target::DT));
        }
        _ => panic!("a gen invocation must dispatch"),
    }
}

#[test]
fn gen_usage_lists_syntax_before_output() {
    let cmd = GenerateCommand::new("gen", "[-s syntax] [-o output] [file]", Vec::new(), Body);
    match cmd.exec(&args(&["-h"])) {
        Outcome::Usage(text) => {
            assert_eq!(
                text,
                "usage: albino gen [-s syntax] [-o output] [file]\n\nOptions:\n\
                 \t-s, --syntax syntax\n\t\tset input file syntax\n\
                 \t-o name\n\t\tset output file name\n\
                 \t-h, --help\n"
            );
        }
        _ => panic!("help must render usage"),
    }
}

#[test]
fn run_chain_rejects_output_option() {
    let cmd = RunCommand::new("run", "[-s syntax] [file]", Vec::new(), Body);
    let o = cmd.exec(&args(&["-o", "out.bc", "prog.ws"]));
    assert!(matches!(o, Outcome::ParseFailed(_)));
}
