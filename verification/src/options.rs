//! Option descriptors and the parsed-options model: each stage appends
//! the descriptors it owns before handing the set inward, and one parse
//! per invocation turns raw argument tokens into an immutable record.
use vstd::prelude::*;

use vstd::utf8::is_ascii_chars;

verus! {

/// One option a subcommand accepts: a short flag, an optional long
/// form, usage help text, and whether a value follows it.
pub struct OptDescriptor {
    pub short: String,
    pub long: String,
    pub hint: String,
    pub desc: String,
    pub takes_arg: bool,
}

/// Names an option parser can accept: a short name of at most one ASCII
/// character, a long name of none or at least two, and at least one of
/// the two present.
pub open spec fn valid_names(od: OptDescriptor) -> bool {
    &&& od.short@.len() <= 1
    &&& (od.long@.len() == 0 || od.long@.len() >= 2)
    &&& !(od.short@.len() == 0 && od.long@.len() == 0)
    &&& is_ascii_chars(od.short@)
    &&& is_ascii_chars(od.long@)
}

/// Every descriptor of the set carries acceptable names.
pub open spec fn opts_valid(s: Seq<OptDescriptor>) -> bool {
    forall|i: int| 0 <= i < s.len() ==> valid_names(#[trigger] s[i])
}

/// The names one descriptor registers: its non-empty short and long forms.
pub open spec fn group_names(od: OptDescriptor) -> Set<Seq<char>> {
    if od.long@.len() == 0 {
        set![od.short@]
    } else if od.short@.len() == 0 {
        set![od.long@]
    } else {
        set![od.short@, od.long@]
    }
}

/// All names an option set answers queries for.
pub open spec fn all_names(s: Seq<OptDescriptor>) -> Set<Seq<char>>
    decreases s.len(),
{
    if s.len() == 0 {
        Set::empty()
    } else {
        all_names(s.drop_last()).union(group_names(s.last()))
    }
}

/// The registration-relevant content of a descriptor set, in order:
/// each descriptor's short name, long name, and whether a value
/// follows it.
pub open spec fn groups_spec(s: Seq<OptDescriptor>) -> Seq<(Seq<char>, Seq<char>, bool)>
    decreases s.len(),
{
    if s.len() == 0 {
        Seq::empty()
    } else {
        groups_spec(s.drop_last()).push((s.last().short@, s.last().long@, s.last().takes_arg))
    }
}

/// Whether some descriptor of the set carries the given short name.
pub open spec fn has_short_spec(s: Seq<OptDescriptor>, name: Seq<char>) -> bool {
    exists|i: int| 0 <= i < s.len() && (#[trigger] s[i]).short@ == name
}

/// A non-empty short name of any descriptor is among the set's names.
pub proof fn lemma_short_name_registered(s: Seq<OptDescriptor>, i: int)
    requires
        0 <= i < s.len(),
        s[i].short@.len() > 0,
    ensures
        all_names(s).contains(s[i].short@),
    decreases s.len(),
{
    if i == s.len() - 1 {
        assert(group_names(s.last()).contains(s[i].short@));
    } else {
        assert(s.drop_last()[i] == s[i]);
        lemma_short_name_registered(s.drop_last(), i);
    }
}

impl OptDescriptor {
    /// A boolean option, taking no value.
    pub fn flag(short: &str, long: &str, desc: &str) -> (r: OptDescriptor)
        ensures
            r.short@ == short@,
            r.long@ == long@,
            r.hint@ == Seq::<char>::empty(),
            r.desc@ == desc@,
            !r.takes_arg,
    {
        OptDescriptor {
            short: String::from_str(short),
            long: String::from_str(long),
            hint: String::new(),
            desc: String::from_str(desc),
            takes_arg: false,
        }
    }

    /// An option that takes a value, with a hint naming it in usage text.
    pub fn with_arg(short: &str, long: &str, desc: &str, hint: &str) -> (r: OptDescriptor)
        ensures
            r.short@ == short@,
            r.long@ == long@,
            r.hint@ == hint@,
            r.desc@ == desc@,
            r.takes_arg,
    {
        OptDescriptor {
            short: String::from_str(short),
            long: String::from_str(long),
            hint: String::from_str(hint),
            desc: String::from_str(desc),
            takes_arg: true,
        }
    }
}

/// The record one invocation reads its options from, produced once from
/// the raw argument tokens and immutable afterwards: the help flag, the
/// explicit syntax token, the output filename, and the positional
/// arguments in order.
#[derive(Clone, PartialEq, Eq, Debug)]
pub struct ParsedOptions {
    pub help: bool,
    pub syntax: Option<String>,
    pub output: Option<String>,
    pub free: Vec<String>,
}

} // verus!
