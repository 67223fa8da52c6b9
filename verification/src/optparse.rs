//! The boundary to the getopts option parser: declarations and wrappers
//! for the handful of calls the command chain makes, and the verified
//! code that builds a parser from a descriptor set and reads one parse
//! result back into the library's own record.
//!
//! Parsing is deterministic, so its outcome and the contents of its
//! result are named as functions of the registered groups and the raw
//! arguments; the wrappers' contracts speak over those names, and the
//! chain's own contracts follow them up to `Command::exec`.
use vstd::prelude::*;

use crate::options::{
    all_names, groups_spec, has_short_spec, lemma_short_name_registered, opts_valid, valid_names,
    OptDescriptor, ParsedOptions,
};

verus! {

#[verifier::external_type_specification]
#[verifier::external_body]
pub struct ExOptions(getopts::Options);

#[verifier::external_type_specification]
#[verifier::external_body]
pub struct ExMatches(getopts::Matches);

/// The set of names a getopts option set has registered and will
/// answer queries for.
pub uninterp spec fn registered_names(o: getopts::Options) -> Set<Seq<char>>;

/// The option groups of a getopts option set, as the two registration
/// calls record them: short name, long name, and whether a value
/// follows; every group registered that way is optional and may occur
/// once.
pub uninterp spec fn groups_of(o: getopts::Options) -> Seq<(Seq<char>, Seq<char>, bool)>;

/// Whether every group of a getopts option set is well-formed as
/// registration leaves it: at least one name, and a short name of at
/// most one byte. Parsing panics on any other group.
pub uninterp spec fn options_named(o: getopts::Options) -> bool;

/// The set of names a parse result answers queries for.
pub uninterp spec fn queryable_names(m: getopts::Matches) -> Set<Seq<char>>;

/// What parsing a raw argument list against the given groups returns:
/// `None` when it succeeds, and the rendered parse error otherwise.
/// Parsing reads nothing but the groups and the arguments, so this is
/// a function of the two.
pub uninterp spec fn parse_outcome_of(
    groups: Seq<(Seq<char>, Seq<char>, bool)>,
    args: Seq<Seq<char>>,
) -> Option<Seq<char>>;

/// Whether this parse result is the one that parsing the raw argument
/// list against the given groups yields.
pub uninterp spec fn from_parse(
    m: getopts::Matches,
    groups: Seq<(Seq<char>, Seq<char>, bool)>,
    args: Seq<Seq<char>>,
) -> bool;

/// Whether the named option is matched when the raw argument list
/// parses against the given groups.
pub uninterp spec fn present_in(
    groups: Seq<(Seq<char>, Seq<char>, bool)>,
    args: Seq<Seq<char>>,
    name: Seq<char>,
) -> bool;

/// The value the named option carries when the raw argument list
/// parses against the given groups, or `None`.
pub uninterp spec fn value_in(
    groups: Seq<(Seq<char>, Seq<char>, bool)>,
    args: Seq<Seq<char>>,
    name: Seq<char>,
) -> Option<Seq<char>>;

/// The positional arguments left over when the raw argument list
/// parses against the given groups, in order.
pub uninterp spec fn free_in(
    groups: Seq<(Seq<char>, Seq<char>, bool)>,
    args: Seq<Seq<char>>,
) -> Seq<Seq<char>>;

/// The record that parsing the raw arguments against the descriptor
/// set produces: the help bit and the two values are read only when
/// their option was registered, and the positional arguments are
/// carried over in order.
pub open spec fn parsed_record(
    opts: Seq<OptDescriptor>,
    args: Seq<Seq<char>>,
    p: ParsedOptions,
) -> bool {
    &&& p.help == (has_short_spec(opts, "h"@) && present_in(groups_spec(opts), args, "h"@))
    &&& p.syntax.deep_view() == (if has_short_spec(opts, "s"@) {
        value_in(groups_spec(opts), args, "s"@)
    } else {
        None::<Seq<char>>
    })
    &&& p.output.deep_view() == (if has_short_spec(opts, "o"@) {
        value_in(groups_spec(opts), args, "o"@)
    } else {
        None::<Seq<char>>
    })
    &&& p.free.deep_view() == free_in(groups_spec(opts), args)
}

/// Whether an invocation of the given descriptor set asks for help:
/// the help flag is registered and matched.
pub open spec fn help_selected(opts: Seq<OptDescriptor>, args: Seq<Seq<char>>) -> bool {
    has_short_spec(opts, "h"@) && present_in(groups_spec(opts), args, "h"@)
}

/// Relies on getopts::Options::new: a blank option set holds no groups.
#[verifier::external_body]
pub(crate) fn new_options() -> (r: getopts::Options)
    ensures
        registered_names(r) == Set::<Seq<char>>::empty(),
        groups_of(r) == Seq::<(Seq<char>, Seq<char>, bool)>::empty(),
        options_named(r),
{
    getopts::Options::new()
}

/// Relies on getopts::Options::optflag: it appends one group that takes
/// no value, registered under its non-empty names; getopts panics on a
/// short name over one character or a long name of exactly one, which
/// the requires rules out.
#[verifier::external_body]
pub(crate) fn register_flag(o: &mut getopts::Options, short: &str, long: &str, desc: &str)
    requires
        short@.len() <= 1,
        long@.len() == 0 || long@.len() >= 2,
        !(short@.len() == 0 && long@.len() == 0),
        short.is_ascii(),
        long.is_ascii(),
    ensures
        options_named(*final(o)) == options_named(*old(o)),
        groups_of(*final(o)) == groups_of(*old(o)).push((short@, long@, false)),
        registered_names(*final(o)) == if long@.len() == 0 {
            registered_names(*old(o)).insert(short@)
        } else if short@.len() == 0 {
            registered_names(*old(o)).insert(long@)
        } else {
            registered_names(*old(o)).insert(short@).insert(long@)
        },
{
    o.optflag(short, long, desc);
}

/// Relies on getopts::Options::optopt: as optflag, for a group that
/// takes one value.
#[verifier::external_body]
pub(crate) fn register_opt(o: &mut getopts::Options, short: &str, long: &str, desc: &str, hint: &str)
    requires
        short@.len() <= 1,
        long@.len() == 0 || long@.len() >= 2,
        !(short@.len() == 0 && long@.len() == 0),
        short.is_ascii(),
        long.is_ascii(),
    ensures
        options_named(*final(o)) == options_named(*old(o)),
        groups_of(*final(o)) == groups_of(*old(o)).push((short@, long@, true)),
        registered_names(*final(o)) == if long@.len() == 0 {
            registered_names(*old(o)).insert(short@)
        } else if short@.len() == 0 {
            registered_names(*old(o)).insert(long@)
        } else {
            registered_names(*old(o)).insert(short@).insert(long@)
        },
{
    o.optopt(short, long, desc, hint);
}

/// Relies on getopts::Options::parse and the Display rendering of its
/// error: parsing is deterministic in the groups and the arguments, so
/// success is `parse_outcome_of` being `None`, a failure carries its
/// rendering, and a returned match answers queries for exactly the
/// registered names. Parse panics only on an ill-formed group, which
/// the requires rules out.
#[verifier::external_body]
pub(crate) fn parse_args(o: &getopts::Options, args: &Vec<String>) -> (r: Result<
    getopts::Matches,
    String,
>)
    requires
        options_named(*o),
    ensures
        (r is Ok) == (parse_outcome_of(groups_of(*o), args.deep_view()) is None),
        (r matches Err(msg) ==> Some(msg@) == parse_outcome_of(groups_of(*o), args.deep_view())),
        (r matches Ok(m) ==> queryable_names(m) == registered_names(*o)),
        (r matches Ok(m) ==> from_parse(m, groups_of(*o), args.deep_view())),
{
    match o.parse(args) {
        Ok(m) => Ok(m),
        Err(e) => Err(format!("{}", e)),
    }
}

/// Relies on getopts::Matches::opt_present: a deterministic read of the
/// parse result, so it returns the match bit the parse determined; it
/// panics on a name that was never registered, which the requires
/// rules out.
#[verifier::external_body]
pub(crate) fn opt_present(m: &getopts::Matches, name: &str) -> (r: bool)
    requires
        queryable_names(*m).contains(name@),
    ensures
        forall|gs: Seq<(Seq<char>, Seq<char>, bool)>, aa: Seq<Seq<char>>|
            #[trigger] from_parse(*m, gs, aa) ==> r == present_in(gs, aa, name@),
{
    m.opt_present(name)
}

/// Relies on getopts::Matches::opt_str: a deterministic read of the
/// parse result, so it returns the value the parse determined; it
/// panics on a name that was never registered, which the requires
/// rules out.
#[verifier::external_body]
pub(crate) fn opt_str(m: &getopts::Matches, name: &str) -> (r: Option<String>)
    requires
        queryable_names(*m).contains(name@),
    ensures
        forall|gs: Seq<(Seq<char>, Seq<char>, bool)>, aa: Seq<Seq<char>>|
            #[trigger] from_parse(*m, gs, aa) ==> r.deep_view() == value_in(gs, aa, name@),
{
    m.opt_str(name)
}

/// Relies on the public `free` field of getopts::Matches: the
/// positional arguments the parse left over, in order.
#[verifier::external_body]
pub(crate) fn free_args(m: &getopts::Matches) -> (r: Vec<String>)
    ensures
        forall|gs: Seq<(Seq<char>, Seq<char>, bool)>, aa: Seq<Seq<char>>|
            #[trigger] from_parse(*m, gs, aa) ==> r.deep_view() == free_in(gs, aa),
{
    m.free.clone()
}

/// Builds a getopts option set registering exactly the descriptor set's
/// names and groups.
pub(crate) fn build_options(opts: &Vec<OptDescriptor>) -> (r: getopts::Options)
    requires
        opts_valid(opts@),
    ensures
        registered_names(r) == all_names(opts@),
        groups_of(r) == groups_spec(opts@),
        options_named(r),
{
    let mut o = new_options();
    proof {
        assert(registered_names(o) =~= all_names(opts@.take(0)));
        assert(groups_of(o) =~= groups_spec(opts@.take(0)));
    }
    let mut i: usize = 0;
    while i < opts.len()
        invariant
            opts_valid(opts@),
            i <= opts.len(),
            registered_names(o) == all_names(opts@.take(i as int)),
            groups_of(o) == groups_spec(opts@.take(i as int)),
            options_named(o),
        decreases opts.len() - i,
    {
        let od = &opts[i];
        assert(valid_names(opts@[i as int]));
        if od.takes_arg {
            register_opt(&mut o, od.short.as_str(), od.long.as_str(), od.desc.as_str(), od.hint.as_str());
        } else {
            register_flag(&mut o, od.short.as_str(), od.long.as_str(), od.desc.as_str());
        }
        proof {
            assert(opts@.take(i + 1).drop_last() =~= opts@.take(i as int));
            assert(opts@.take(i + 1).last() == opts@[i as int]);
            assert(registered_names(o) =~= all_names(opts@.take(i + 1)));
            assert(groups_of(o) =~= groups_spec(opts@.take(i + 1)));
        }
        i = i + 1;
    }
    proof {
        assert(opts@.take(opts.len() as int) =~= opts@);
    }
    o
}

/// Whether some descriptor of the set carries the given short name.
pub(crate) fn has_short(opts: &Vec<OptDescriptor>, name: &str) -> (r: bool)
    ensures
        r == has_short_spec(opts@, name@),
{
    let mut i: usize = 0;
    while i < opts.len()
        invariant
            i <= opts.len(),
            forall|k: int| 0 <= k < i ==> (#[trigger] opts@[k]).short@ != name@,
        decreases opts.len() - i,
    {
        if crate::util::str_eq(opts[i].short.as_str(), name) {
            return true;
        }
        i = i + 1;
    }
    false
}

/// Reads one parse result into the library's own record, querying only
/// the options the descriptor set registered: a stage that never added
/// an option cannot see a value for it, and whatever the parse
/// determined is carried over unchanged.
pub(crate) fn extract_options(opts: &Vec<OptDescriptor>, m: &getopts::Matches) -> (r: ParsedOptions)
    requires
        queryable_names(*m) == all_names(opts@),
    ensures
        !has_short_spec(opts@, "h"@) ==> r.help == false,
        !has_short_spec(opts@, "s"@) ==> r.syntax is None,
        !has_short_spec(opts@, "o"@) ==> r.output is None,
        forall|aa: Seq<Seq<char>>| #[trigger] from_parse(*m, groups_spec(opts@), aa) ==>
            parsed_record(opts@, aa, r),
{
    let help = if has_short(opts, "h") {
        proof {
            reveal_strlit("h");
            let i = choose|i: int| 0 <= i < opts@.len() && (#[trigger] opts@[i]).short@ == "h"@;
            lemma_short_name_registered(opts@, i);
        }
        opt_present(m, "h")
    } else {
        false
    };
    let syntax = if has_short(opts, "s") {
        proof {
            reveal_strlit("s");
            let i = choose|i: int| 0 <= i < opts@.len() && (#[trigger] opts@[i]).short@ == "s"@;
            lemma_short_name_registered(opts@, i);
        }
        opt_str(m, "s")
    } else {
        None
    };
    let output = if has_short(opts, "o") {
        proof {
            reveal_strlit("o");
            let i = choose|i: int| 0 <= i < opts@.len() && (#[trigger] opts@[i]).short@ == "o"@;
            lemma_short_name_registered(opts@, i);
        }
        opt_str(m, "o")
    } else {
        None
    };
    let free = free_args(m);
    ParsedOptions { help, syntax, output, free }
}

} // verus!
