//! The command stage chain: a base command that owns option parsing,
//! usage rendering and the help short-circuit, wrapped by stages that
//! each add one responsibility — source acquisition with syntax
//! resolution, sink acquisition, raw bytecode acquisition, and the
//! generate direction that resolves syntax from the output name.
use vstd::prelude::*;

use vstd::utf8::is_ascii_chars;

use crate::options::{groups_spec, opts_valid, valid_names, OptDescriptor, ParsedOptions};
use crate::optparse::{
    build_options, extract_options, from_parse, help_selected, parse_args, parse_outcome_of,
    parsed_record,
};
use crate::policy::Failure;
use crate::util::{detect_target, resolve_spec, Target};

verus! {

/// The descriptor the base command registers: `-h, --help`.
pub open spec fn help_descriptor(od: OptDescriptor) -> bool {
    &&& od.short@ == "h"@
    &&& od.long@ == "help"@
    &&& od.desc@ == Seq::<char>::empty()
    &&& !od.takes_arg
}

/// The descriptor the run and generate stages register: `-s, --syntax`.
pub open spec fn syntax_descriptor(od: OptDescriptor) -> bool {
    &&& od.short@ == "s"@
    &&& od.long@ == "syntax"@
    &&& od.desc@ == "set input file syntax"@
    &&& od.hint@ == "syntax"@
    &&& od.takes_arg
}

/// The descriptor the build and generate stages register: `-o`.
pub open spec fn output_descriptor(od: OptDescriptor) -> bool {
    &&& od.short@ == "o"@
    &&& od.long@ == Seq::<char>::empty()
    &&& od.desc@ == "set output file name"@
    &&& od.hint@ == "name"@
    &&& od.takes_arg
}

/// How one invocation of the base command ends: the raw arguments were
/// malformed, the help flag suppressed everything else, or control is
/// handed inward with the parsed options.
#[derive(Clone, PartialEq, Eq, Debug)]
pub enum Outcome {
    ParseFailed(String),
    Usage(String),
    Dispatch(ParsedOptions),
}

/// The exit status the base command's own outcomes map to: a parse
/// failure is fatal with code 1, and rendered usage ends the
/// invocation successfully, nothing further having run.
pub fn outcome_exit_code(o: &Outcome) -> (r: i32)
    ensures
        (o matches Outcome::ParseFailed(_) ==> r == 1),
        (o matches Outcome::Usage(_) ==> r == 0),
        (o matches Outcome::Dispatch(_) ==> r == 0),
{
    match o {
        Outcome::ParseFailed(_) => 1,
        Outcome::Usage(_) => 0,
        Outcome::Dispatch(_) => 0,
    }
}

/// A stream the chain decided to use: a named file, or the process's
/// standard stream.
#[derive(Clone, PartialEq, Eq, Debug)]
pub enum StreamSpec {
    Named(String),
    Standard,
}

/// The input stream an invocation reads from: its first positional
/// argument when one is given, standard input otherwise.
pub open spec fn input_spec_of(p: ParsedOptions) -> StreamSpec {
    if p.free@.len() > 0 {
        StreamSpec::Named(p.free@[0])
    } else {
        StreamSpec::Standard
    }
}

/// The output stream an invocation writes to: the `-o` name when one
/// is given, standard output otherwise.
pub open spec fn output_spec_of(p: ParsedOptions) -> StreamSpec {
    match p.output {
        Some(name) => StreamSpec::Named(name),
        None => StreamSpec::Standard,
    }
}

/// The filename source resolution inspects: the first positional
/// argument, or the empty name when reading standard input.
pub open spec fn source_filename_spec(p: ParsedOptions) -> Seq<char> {
    if p.free@.len() > 0 {
        p.free@[0]@
    } else {
        Seq::empty()
    }
}

/// The filename the generate direction inspects: the `-o` name, or the
/// empty name when writing standard output.
pub open spec fn gen_filename_spec(p: ParsedOptions) -> Seq<char> {
    match p.output {
        Some(name) => name@,
        None => Seq::empty(),
    }
}

/// The usage line one option descriptor renders to.
pub open spec fn usage_entry_spec(od: OptDescriptor) -> Seq<char> {
    "\t-"@ + od.short@ + (if od.long@.len() > 0 {
        ", --"@ + od.long@
    } else {
        Seq::<char>::empty()
    }) + (if od.takes_arg {
        " "@ + od.hint@
    } else {
        Seq::<char>::empty()
    }) + (if od.desc@.len() > 0 {
        "\n\t\t"@ + od.desc@ + "\n"@
    } else {
        "\n"@
    })
}

/// The usage lines of a descriptor set, in registration order.
pub open spec fn usage_entries_spec(s: Seq<OptDescriptor>) -> Seq<char>
    decreases s.len(),
{
    if s.len() == 0 {
        Seq::empty()
    } else {
        usage_entries_spec(s.drop_last()) + usage_entry_spec(s.last())
    }
}

/// The full usage text: the command's header line, then every option.
pub open spec fn usage_text_spec(command: Seq<char>, usage: Seq<char>, opts: Seq<OptDescriptor>) -> Seq<char> {
    "usage: albino "@ + command + " "@ + usage + "\n\nOptions:\n"@ + usage_entries_spec(opts)
}

/// The innermost operation of a subcommand that needs only the parsed
/// options.
pub trait Executable {
    fn exec(&mut self, m: &ParsedOptions) -> Result<(), Failure>;
}

/// The innermost operation of the `run` subcommand: source bytes and a
/// resolved target, or no target when resolution failed.
pub trait RunExecutable {
    fn exec(&mut self, m: &ParsedOptions, input: &Vec<u8>, target: Option<Target>) -> Result<
        (),
        Failure,
    >;
}

/// The innermost operation of the `build` subcommand: source bytes, a
/// sink for the produced bytecode, and the resolved target.
pub trait BuildExecutable {
    fn exec(
        &mut self,
        m: &ParsedOptions,
        input: &Vec<u8>,
        output: &mut Vec<u8>,
        target: Option<Target>,
    ) -> Result<(), Failure>;
}

/// The innermost operation of the `exec` subcommand: raw bytecode.
pub trait LoadExecutable {
    fn exec(&mut self, m: &ParsedOptions, input: &Vec<u8>) -> Result<(), Failure>;
}

/// The innermost operation of the `gen` subcommand: bytecode, a sink
/// for the rendered source, and the target syntax to render in.
pub trait GenerateExecutable {
    fn exec(
        &mut self,
        m: &ParsedOptions,
        input: &Vec<u8>,
        output: &mut Vec<u8>,
        target: Option<Target>,
    ) -> Result<(), Failure>;
}

/// The base command: its name and usage string, the option descriptors
/// every stage accumulated, and the inner operation the stages wrap.
pub struct Command<T> {
    pub command: String,
    pub usage: String,
    pub opts: Vec<OptDescriptor>,
    pub inner: T,
}

/// The stage that acquires resolved-syntax source for `run`.
pub struct RunCommand<T> {
    pub inner: T,
}

/// The stage that acquires a bytecode sink for `build`.
pub struct BuildCommand<T> {
    pub inner: T,
}

/// The stage that acquires raw bytecode for `exec`.
pub struct LoadCommand<T> {
    pub inner: T,
}

/// The stage that resolves the output syntax and acquires a source
/// sink for `gen`.
pub struct GenerateCommand<T> {
    pub inner: T,
}

/// The empty literal's view is the empty sequence.
proof fn lemma_empty_strlit()
    ensures
        ""@ == Seq::<char>::empty(),
{
    reveal_strlit("");
    assert(""@ =~= Seq::<char>::empty());
}

/// The pushed help descriptor is well-formed.
proof fn lemma_help_descriptor_valid(od: OptDescriptor)
    requires
        help_descriptor(od),
    ensures
        valid_names(od),
{
    reveal_strlit("h");
    reveal_strlit("help");
    assert("h"@.len() == 1);
    assert("help"@.len() == 4);
    assert(is_ascii_chars(od.short@));
    assert(is_ascii_chars(od.long@));
}

/// The pushed syntax descriptor is well-formed.
proof fn lemma_syntax_descriptor_valid(od: OptDescriptor)
    requires
        syntax_descriptor(od),
    ensures
        valid_names(od),
{
    reveal_strlit("s");
    reveal_strlit("syntax");
    assert("s"@.len() == 1);
    assert("syntax"@.len() == 6);
    assert(is_ascii_chars(od.short@));
    assert(is_ascii_chars(od.long@));
}

/// The pushed output descriptor is well-formed.
proof fn lemma_output_descriptor_valid(od: OptDescriptor)
    requires
        output_descriptor(od),
    ensures
        valid_names(od),
{
    reveal_strlit("o");
    assert("o"@.len() == 1);
    assert(is_ascii_chars(od.short@));
    assert(is_ascii_chars(od.long@));
}

impl<T> Command<T> {
    /// Finalises a chain: registers the help flag after every stage's
    /// own options, so it renders last in usage text.
    pub fn new(command: &str, usage: &str, opts: Vec<OptDescriptor>, inner: T) -> (r: Command<T>)
        requires
            opts_valid(opts@),
        ensures
            r.command@ == command@,
            r.usage@ == usage@,
            r.inner == inner,
            r.opts@.len() == opts@.len() + 1,
            r.opts@.drop_last() == opts@,
            help_descriptor(r.opts@.last()),
            opts_valid(r.opts@),
    {
        let mut opts = opts;
        let d = OptDescriptor::flag("h", "help", "");
        proof {
            lemma_empty_strlit();
            lemma_help_descriptor_valid(d);
        }
        opts.push(d);
        proof {
            assert(opts@.drop_last() =~= opts@.subrange(0, opts@.len() - 1));
            assert(opts_valid(opts@));
        }
        Command { command: String::from_str(command), usage: String::from_str(usage), opts, inner }
    }

    /// Renders the usage text: the header naming the command, then one
    /// entry per option in registration order.
    #[verifier::rlimit(60)]
    pub fn usage_text(&self) -> (r: String)
        ensures
            r@ == usage_text_spec(self.command@, self.usage@, self.opts@),
    {
        let mut out = String::from_str("usage: albino ");
        out.append(self.command.as_str());
        out.append(" ");
        out.append(self.usage.as_str());
        out.append("\n\nOptions:\n");
        proof {
            assert(out@ =~= usage_text_spec(self.command@, self.usage@, self.opts@.take(0)));
        }
        let mut i: usize = 0;
        while i < self.opts.len()
            invariant
                i <= self.opts.len(),
                out@ == usage_text_spec(self.command@, self.usage@, self.opts@.take(i as int)),
            decreases self.opts.len() - i,
        {
            let od = &self.opts[i];
            out.append("\t-");
            out.append(od.short.as_str());
            if !od.long.as_str().is_empty() {
                out.append(", --");
                out.append(od.long.as_str());
            }
            if od.takes_arg {
                out.append(" ");
                out.append(od.hint.as_str());
            }
            if !od.desc.as_str().is_empty() {
                out.append("\n\t\t");
                out.append(od.desc.as_str());
                out.append("\n");
            } else {
                out.append("\n");
            }
            proof {
                assert(self.opts@.take(i + 1).drop_last() =~= self.opts@.take(i as int));
                assert(self.opts@.take(i + 1).last() == self.opts@[i as int]);
                assert(out@ =~= usage_text_spec(
                    self.command@,
                    self.usage@,
                    self.opts@.take(i + 1),
                ));
            }
            i = i + 1;
        }
        proof {
            assert(self.opts@.take(self.opts.len() as int) =~= self.opts@);
        }
        out
    }

    /// Checks at run time that every accumulated descriptor carries
    /// acceptable names, the condition `exec` relies on; the
    /// constructors establish it for every chain they wire.
    pub fn options_valid(&self) -> (r: bool)
        ensures
            r == opts_valid(self.opts@),
    {
        let mut i: usize = 0;
        while i < self.opts.len()
            invariant
                i <= self.opts.len(),
                forall|k: int| 0 <= k < i ==> valid_names(#[trigger] self.opts@[k]),
            decreases self.opts.len() - i,
        {
            let od = &self.opts[i];
            let short = od.short.as_str();
            let long = od.long.as_str();
            let short_len = short.unicode_len();
            let long_len = long.unicode_len();
            let ok = short_len <= 1 && (long_len == 0 || long_len >= 2) && !(short_len == 0
                && long_len == 0) && short.is_ascii() && long.is_ascii();
            if !ok {
                return false;
            }
            i = i + 1;
        }
        true
    }

    /// The help short-circuit: a set help flag renders usage and
    /// suppresses dispatch; otherwise control passes inward with the
    /// parsed options.
    pub fn decide(&self, p: ParsedOptions) -> (r: Outcome)
        ensures
            p.help ==> (r matches Outcome::Usage(t) && t@ == usage_text_spec(
                self.command@,
                self.usage@,
                self.opts@,
            )),
            !p.help ==> r == Outcome::Dispatch(p),
    {
        if p.help {
            Outcome::Usage(self.usage_text())
        } else {
            Outcome::Dispatch(p)
        }
    }

    /// Parses the raw arguments against the accumulated options and
    /// decides how the invocation proceeds: a parse failure is fatal
    /// and carries the parser's own message, a matched help flag
    /// yields the usage text and nothing else runs, and otherwise the
    /// record parsed from exactly these arguments is handed inward.
    pub fn exec(&self, args: &Vec<String>) -> (r: Outcome)
        requires
            opts_valid(self.opts@),
        ensures
            (r is ParseFailed) == (parse_outcome_of(
                groups_spec(self.opts@),
                args.deep_view(),
            ) is Some),
            (r matches Outcome::ParseFailed(msg) ==> Some(msg@) == parse_outcome_of(
                groups_spec(self.opts@),
                args.deep_view(),
            )),
            (r is Usage) == ((parse_outcome_of(groups_spec(self.opts@), args.deep_view()) is None)
                && help_selected(self.opts@, args.deep_view())),
            (r matches Outcome::Usage(t) ==> t@ == usage_text_spec(
                self.command@,
                self.usage@,
                self.opts@,
            )),
            (r matches Outcome::Dispatch(p) ==> p.help == false && parsed_record(
                self.opts@,
                args.deep_view(),
                p,
            )),
    {
        let o = build_options(&self.opts);
        match parse_args(&o, args) {
            Err(msg) => Outcome::ParseFailed(msg),
            Ok(m) => {
                let p = extract_options(&self.opts, &m);
                proof {
                    assert(from_parse(m, groups_spec(self.opts@), args.deep_view()));
                }
                self.decide(p)
            },
        }
    }
}

/// Copies an optional string value.
fn clone_opt(o: &Option<String>) -> (r: Option<String>)
    ensures
        r == *o,
{
    match o {
        Some(s) => Some(s.clone()),
        None => None,
    }
}

impl<T> RunCommand<T> {
    /// Wires a `run`-family chain: the syntax option, then the base
    /// command around this stage.
    pub fn new(command: &str, usage: &str, opts: Vec<OptDescriptor>, inner: T) -> (r: Command<
        RunCommand<T>,
    >)
        requires
            opts_valid(opts@),
        ensures
            r.command@ == command@,
            r.usage@ == usage@,
            r.inner.inner == inner,
            r.opts@.len() == opts@.len() + 2,
            r.opts@.subrange(0, opts@.len() as int) == opts@,
            syntax_descriptor(r.opts@[opts@.len() as int]),
            help_descriptor(r.opts@.last()),
            opts_valid(r.opts@),
    {
        let mut opts = opts;
        let ghost n = opts@.len() as int;
        let d = OptDescriptor::with_arg("s", "syntax", "set input file syntax", "syntax");
        proof {
            lemma_syntax_descriptor_valid(d);
        }
        opts.push(d);
        proof {
            assert(opts_valid(opts@));
        }
        let r = Command::new(command, usage, opts, RunCommand { inner });
        proof {
            assert(r.opts@.subrange(0, n) =~= r.opts@.drop_last().subrange(0, n));
            assert(opts@[n] == d);
            assert(r.opts@[n] == r.opts@.drop_last()[n]);
        }
        r
    }

    /// The source acquisition decision: which stream to read, and what
    /// target the explicit token and the filename resolve to.
    pub fn source_plan(m: &ParsedOptions) -> (r: (StreamSpec, Option<Target>))
        ensures
            r.0 == input_spec_of(*m),
            r.1 == resolve_spec(m.syntax.deep_view(), source_filename_spec(*m)),
    {
        let syntax = clone_opt(&m.syntax);
        if m.free.len() > 0 {
            let filename = m.free[0].clone();
            let target = detect_target(syntax, &filename);
            (StreamSpec::Named(filename), target)
        } else {
            let empty = String::new();
            let target = detect_target(syntax, &empty);
            (StreamSpec::Standard, target)
        }
    }
}

impl<E: RunExecutable> RunCommand<E> {
    /// Hands the acquired source inward: an acquisition failure stops
    /// the chain and is passed up unchanged; otherwise the inner
    /// operation runs with the resolved target.
    pub fn dispatch(&mut self, m: &ParsedOptions, acquired: Result<Vec<u8>, Failure>) -> (r:
        Result<(), Failure>)
        ensures
            acquired matches Err(f) ==> r == Err::<(), Failure>(f),
    {
        match acquired {
            Err(f) => Err(f),
            Ok(bytes) => {
                let (_, target) = Self::source_plan(m);
                self.inner.exec(m, &bytes, target)
            },
        }
    }
}

impl<T> BuildCommand<T> {
    /// Wires a `build` chain: the output option, then the run stage and
    /// the base command around this stage.
    pub fn new(command: &str, usage: &str, opts: Vec<OptDescriptor>, inner: T) -> (r: Command<
        RunCommand<BuildCommand<T>>,
    >)
        requires
            opts_valid(opts@),
        ensures
            r.command@ == command@,
            r.usage@ == usage@,
            r.inner.inner.inner == inner,
            r.opts@.len() == opts@.len() + 3,
            r.opts@.subrange(0, opts@.len() as int) == opts@,
            output_descriptor(r.opts@[opts@.len() as int]),
            syntax_descriptor(r.opts@[opts@.len() as int + 1]),
            help_descriptor(r.opts@.last()),
            opts_valid(r.opts@),
    {
        let mut opts = opts;
        let ghost n = opts@.len() as int;
        let d = OptDescriptor::with_arg("o", "", "set output file name", "name");
        proof {
            lemma_empty_strlit();
            lemma_output_descriptor_valid(d);
        }
        opts.push(d);
        proof {
            assert(opts_valid(opts@));
        }
        let r = RunCommand::new(command, usage, opts, BuildCommand { inner });
        proof {
            assert(r.opts@.subrange(0, n) =~= r.opts@.subrange(0, n + 1).subrange(0, n));
            assert(opts@[n] == d);
            assert(r.opts@[n] == r.opts@.subrange(0, n + 1)[n]);
        }
        r
    }

    /// The sink acquisition decision: which stream the produced
    /// bytecode is written to.
    pub fn output_plan(m: &ParsedOptions) -> (r: StreamSpec)
        ensures
            r == output_spec_of(*m),
    {
        match &m.output {
            Some(name) => StreamSpec::Named(name.clone()),
            None => StreamSpec::Standard,
        }
    }
}

impl<E: BuildExecutable> BuildCommand<E> {
    /// Hands the acquired source and the sink inward: an acquisition
    /// failure stops the chain and is passed up unchanged.
    pub fn dispatch(
        &mut self,
        m: &ParsedOptions,
        acquired: Result<Vec<u8>, Failure>,
        output: &mut Vec<u8>,
        target: Option<Target>,
    ) -> (r: Result<(), Failure>)
        ensures
            acquired matches Err(f) ==> r == Err::<(), Failure>(f),
    {
        match acquired {
            Err(f) => Err(f),
            Ok(bytes) => self.inner.exec(m, &bytes, output, target),
        }
    }
}

impl<T> LoadCommand<T> {
    /// Wires an `exec` chain: no stage options, only the base command
    /// around this stage.
    pub fn new(command: &str, usage: &str, opts: Vec<OptDescriptor>, inner: T) -> (r: Command<
        LoadCommand<T>,
    >)
        requires
            opts_valid(opts@),
        ensures
            r.command@ == command@,
            r.usage@ == usage@,
            r.inner.inner == inner,
            r.opts@.len() == opts@.len() + 1,
            r.opts@.drop_last() == opts@,
            help_descriptor(r.opts@.last()),
            opts_valid(r.opts@),
    {
        Command::new(command, usage, opts, LoadCommand { inner })
    }

    /// The bytecode acquisition decision: which stream is read, with no
    /// syntax resolution — the input is already bytecode.
    pub fn input_plan(m: &ParsedOptions) -> (r: StreamSpec)
        ensures
            r == input_spec_of(*m),
    {
        if m.free.len() > 0 {
            StreamSpec::Named(m.free[0].clone())
        } else {
            StreamSpec::Standard
        }
    }
}

impl<E: LoadExecutable> LoadCommand<E> {
    /// Hands the acquired bytecode inward: an acquisition failure stops
    /// the chain and is passed up unchanged.
    pub fn dispatch(&mut self, m: &ParsedOptions, acquired: Result<Vec<u8>, Failure>) -> (r:
        Result<(), Failure>)
        ensures
            acquired matches Err(f) ==> r == Err::<(), Failure>(f),
    {
        match acquired {
            Err(f) => Err(f),
            Ok(bytes) => self.inner.exec(m, &bytes),
        }
    }
}

impl<T> GenerateCommand<T> {
    /// Wires a `gen` chain: the syntax and output options, then the
    /// load stage and the base command around this stage.
    pub fn new(command: &str, usage: &str, opts: Vec<OptDescriptor>, inner: T) -> (r: Command<
        LoadCommand<GenerateCommand<T>>,
    >)
        requires
            opts_valid(opts@),
        ensures
            r.command@ == command@,
            r.usage@ == usage@,
            r.inner.inner.inner == inner,
            r.opts@.len() == opts@.len() + 3,
            r.opts@.subrange(0, opts@.len() as int) == opts@,
            syntax_descriptor(r.opts@[opts@.len() as int]),
            output_descriptor(r.opts@[opts@.len() as int + 1]),
            help_descriptor(r.opts@.last()),
            opts_valid(r.opts@),
    {
        let mut opts = opts;
        let ghost n = opts@.len() as int;
        let ds = OptDescriptor::with_arg("s", "syntax", "set input file syntax", "syntax");
        proof {
            lemma_syntax_descriptor_valid(ds);
        }
        opts.push(ds);
        let dd = OptDescriptor::with_arg("o", "", "set output file name", "name");
        proof {
            lemma_empty_strlit();
            lemma_output_descriptor_valid(dd);
            assert(opts_valid(opts@));
        }
        opts.push(dd);
        proof {
            assert(opts_valid(opts@));
        }
        let r = LoadCommand::new(command, usage, opts, GenerateCommand { inner });
        proof {
            assert(r.opts@.drop_last().subrange(0, n) =~= r.opts@.subrange(0, n));
            assert(opts@[n] == ds);
            assert(opts@[n + 1] == dd);
            assert(r.opts@[n] == r.opts@.drop_last()[n]);
            assert(r.opts@[n + 1] == r.opts@.drop_last()[n + 1]);
        }
        r
    }

    /// The generate direction's decisions: which stream the bytecode is
    /// read from, which the rendered source is written to, and the
    /// target resolved from the explicit token and the output name.
    pub fn generate_plan(m: &ParsedOptions) -> (r: (StreamSpec, StreamSpec, Option<Target>))
        ensures
            r.0 == input_spec_of(*m),
            r.1 == output_spec_of(*m),
            r.2 == resolve_spec(m.syntax.deep_view(), gen_filename_spec(*m)),
    {
        let input = LoadCommand::<T>::input_plan(m);
        let syntax = clone_opt(&m.syntax);
        match &m.output {
            Some(name) => {
                let target = detect_target(syntax, name);
                (input, StreamSpec::Named(name.clone()), target)
            },
            None => {
                let empty = String::new();
                let target = detect_target(syntax, &empty);
                (input, StreamSpec::Standard, target)
            },
        }
    }
}

impl<E: GenerateExecutable> GenerateCommand<E> {
    /// Hands the acquired bytecode and the sink inward: an acquisition
    /// failure stops the chain and is passed up unchanged.
    pub fn dispatch(
        &mut self,
        m: &ParsedOptions,
        acquired: Result<Vec<u8>, Failure>,
        output: &mut Vec<u8>,
        target: Option<Target>,
    ) -> (r: Result<(), Failure>)
        ensures
            acquired matches Err(f) ==> r == Err::<(), Failure>(f),
    {
        match acquired {
            Err(f) => Err(f),
            Ok(bytes) => self.inner.exec(m, &bytes, output, target),
        }
    }
}

} // verus!
