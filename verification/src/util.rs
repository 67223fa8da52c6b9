//! Target-language resolution: mapping an optional explicit syntax token
//! and a filename to the esoteric syntax a source file is written in.
use vstd::prelude::*;

use crate::policy::Failure;

verus! {

/// Uniform reporting capability: every subcommand body implements this
/// once, so failures are rendered the same way wherever they arise.
pub trait ErrorHandler {
    fn handle_error(&self, e: &Failure);
}

/// The resolved source-syntax tag, selecting which compiler, decompiler
/// or virtual-machine capability an invocation drives.
#[derive(Clone, Copy, PartialEq, Eq, Structural, Debug)]
pub enum Target {
    Assembly,
    Brainfuck,
    DT,
    Ook,
    Whitespace,
}

/// What an explicit `-s` token resolves to: exactly the five literal
/// tokens are recognised; anything else is unresolved.
pub open spec fn token_target(t: Seq<char>) -> Option<Target> {
    if t == "asm"@ {
        Some(Target::Assembly)
    } else if t == "bf"@ {
        Some(Target::Brainfuck)
    } else if t == "dt"@ {
        Some(Target::DT)
    } else if t == "ook"@ {
        Some(Target::Ook)
    } else if t == "ws"@ {
        Some(Target::Whitespace)
    } else {
        None
    }
}

/// The segment of `s` after its last `.`, or `None` when `s` holds no `.`
/// at all (that is, when the filename has no extension).
pub open spec fn extension_of(s: Seq<char>) -> Option<Seq<char>>
    decreases s.len(),
{
    if s.len() == 0 {
        None
    } else if s.last() == '.' {
        Some(Seq::empty())
    } else {
        match extension_of(s.drop_last()) {
            None => None,
            Some(e) => Some(e.push(s.last())),
        }
    }
}

/// What a filename extension resolves to when no explicit token is given:
/// the four known extensions map to their syntax, and every other
/// extension falls back to the default, Whitespace.
pub open spec fn ext_target(e: Seq<char>) -> Target {
    if e == "asm"@ {
        Target::Assembly
    } else if e == "bf"@ {
        Target::Brainfuck
    } else if e == "dt"@ {
        Target::DT
    } else if e == "ook"@ {
        Target::Ook
    } else {
        Target::Whitespace
    }
}

/// Full resolution rule: an explicit token always wins (or fails outright),
/// and otherwise the filename's extension decides, defaulting to Whitespace
/// both for unknown extensions and for filenames without one.
pub open spec fn resolve_spec(opt: Option<Seq<char>>, filename: Seq<char>) -> Option<Target> {
    match opt {
        Some(t) => token_target(t),
        None => match extension_of(filename) {
            None => Some(Target::Whitespace),
            Some(e) => Some(ext_target(e)),
        },
    }
}

/// A sequence with no `.` has no extension.
proof fn lemma_no_dot(s: Seq<char>)
    requires
        forall|k: int| 0 <= k < s.len() ==> s[k] != '.',
    ensures
        extension_of(s) is None,
    decreases s.len(),
{
    if s.len() > 0 {
        assert(forall|k: int| 0 <= k < s.drop_last().len() ==> s.drop_last()[k] == s[k]);
        lemma_no_dot(s.drop_last());
    }
}

/// When the last `.` of `s` stands at position `i`, the extension is
/// exactly what follows it.
proof fn lemma_dot_suffix(s: Seq<char>, i: int)
    requires
        0 <= i < s.len(),
        s[i] == '.',
        forall|k: int| i < k < s.len() ==> s[k] != '.',
    ensures
        extension_of(s) == Some(s.subrange(i + 1, s.len() as int)),
    decreases s.len(),
{
    if i == s.len() - 1 {
        assert(s.subrange(i + 1, s.len() as int) =~= Seq::empty());
    } else {
        assert(s.last() != '.');
        assert(forall|k: int| 0 <= k < s.drop_last().len() ==> s.drop_last()[k] == s[k]);
        lemma_dot_suffix(s.drop_last(), i);
        assert(s.drop_last().subrange(i + 1, s.drop_last().len() as int).push(s.last()) =~= s
            .subrange(i + 1, s.len() as int));
    }
}

/// The extension of a name formed by any stem, a dot, and a dot-free
/// final segment is exactly that final segment.
proof fn lemma_extension_after_dot(g: Seq<char>, e: Seq<char>)
    requires
        forall|k: int| 0 <= k < e.len() ==> e[k] != '.',
    ensures
        extension_of(g + seq!['.'] + e) == Some(e),
    decreases e.len(),
{
    let s = g + seq!['.'] + e;
    if e.len() == 0 {
        assert(s.last() == '.');
        assert(Seq::<char>::empty() =~= e);
    } else {
        assert(s.last() == e.last());
        assert(s.drop_last() =~= g + seq!['.'] + e.drop_last());
        assert(forall|k: int| 0 <= k < e.drop_last().len() ==> e.drop_last()[k] == e[k]);
        lemma_extension_after_dot(g, e.drop_last());
        assert(e.drop_last().push(e.last()) =~= e);
    }
}

/// Law: a filename holding no `.` resolves, without an explicit token,
/// to the default syntax, Whitespace.
pub proof fn lemma_resolve_no_extension(f: Seq<char>)
    requires
        forall|k: int| 0 <= k < f.len() ==> f[k] != '.',
    ensures
        resolve_spec(None, f) == Some(Target::Whitespace),
{
    lemma_no_dot(f);
}

/// Law: a filename ending in one of the four recognised extensions
/// resolves to the matching syntax, whatever segments stand before it.
pub proof fn lemma_resolve_known_extension(g: Seq<char>)
    ensures
        resolve_spec(None, g + ".asm"@) == Some(Target::Assembly),
        resolve_spec(None, g + ".bf"@) == Some(Target::Brainfuck),
        resolve_spec(None, g + ".dt"@) == Some(Target::DT),
        resolve_spec(None, g + ".ook"@) == Some(Target::Ook),
{
    reveal_strlit(".asm");
    reveal_strlit(".bf");
    reveal_strlit(".dt");
    reveal_strlit(".ook");
    reveal_strlit("asm");
    reveal_strlit("bf");
    reveal_strlit("dt");
    reveal_strlit("ook");
    assert(g + ".asm"@ =~= g + seq!['.'] + "asm"@);
    assert(g + ".bf"@ =~= g + seq!['.'] + "bf"@);
    assert(g + ".dt"@ =~= g + seq!['.'] + "dt"@);
    assert(g + ".ook"@ =~= g + seq!['.'] + "ook"@);
    lemma_extension_after_dot(g, "asm"@);
    lemma_extension_after_dot(g, "bf"@);
    lemma_extension_after_dot(g, "dt"@);
    lemma_extension_after_dot(g, "ook"@);
}

/// Law: a filename whose extension is none of the four recognised ones
/// still resolves, as a deliberate catch-all, to Whitespace.
pub proof fn lemma_resolve_unknown_extension(g: Seq<char>, e: Seq<char>)
    requires
        forall|k: int| 0 <= k < e.len() ==> e[k] != '.',
        e != "asm"@,
        e != "bf"@,
        e != "dt"@,
        e != "ook"@,
    ensures
        resolve_spec(None, g + seq!['.'] + e) == Some(Target::Whitespace),
{
    lemma_extension_after_dot(g, e);
}

/// Law: an explicit token decides resolution by itself: the filename is
/// never consulted, and in particular the token `bf` yields Brainfuck
/// whatever the filename suggests.
pub proof fn lemma_explicit_token_overrides(t: Seq<char>, f1: Seq<char>, f2: Seq<char>)
    ensures
        resolve_spec(Some(t), f1) == resolve_spec(Some(t), f2),
        resolve_spec(Some("bf"@), f1) == Some(Target::Brainfuck),
{
    reveal_strlit("asm");
    reveal_strlit("bf");
    assert("bf"@.len() == 2);
    assert("asm"@.len() == 3);
}

/// Law: an explicit token outside the recognised set leaves the target
/// unresolved, independent of the filename.
pub proof fn lemma_invalid_token_unresolved(t: Seq<char>, f: Seq<char>)
    requires
        t != "asm"@,
        t != "bf"@,
        t != "dt"@,
        t != "ook"@,
        t != "ws"@,
    ensures
        resolve_spec(Some(t), f) == None::<Target>,
{
}

/// Character-by-character string comparison.
pub fn str_eq(a: &str, b: &str) -> (r: bool)
    ensures
        r == (a@ == b@),
{
    let n = a.unicode_len();
    if n != b.unicode_len() {
        return false;
    }
    let mut i: usize = 0;
    while i < n
        invariant
            i <= n,
            n == a@.len(),
            n == b@.len(),
            forall|k: int| 0 <= k < i ==> a@[k] == b@[k],
        decreases n - i,
    {
        if a.get_char(i) != b.get_char(i) {
            return false;
        }
        i = i + 1;
    }
    proof {
        assert(a@ =~= b@);
    }
    true
}

/// Position of the last `.` in `f`, if any.
fn last_dot_index(f: &str) -> (r: Option<usize>)
    ensures
        match r {
            Some(i) => i < f@.len() && f@[i as int] == '.' && (forall|k: int|
                i < k < f@.len() ==> f@[k] != '.'),
            None => forall|k: int| 0 <= k < f@.len() ==> f@[k] != '.',
        },
{
    let n = f.unicode_len();
    let mut j: usize = n;
    while j > 0
        invariant
            j <= n,
            n == f@.len(),
            forall|k: int| j <= k < n ==> f@[k] != '.',
        decreases j,
    {
        let c = f.get_char(j - 1);
        if c == '.' {
            return Some(j - 1);
        }
        j = j - 1;
    }
    None
}

/// Resolves the target syntax from an optional explicit token and a
/// filename: the token, when present, is matched case-sensitively against
/// the five recognised names and never falls through to the filename;
/// without a token the filename's extension decides, with Whitespace as
/// the catch-all default.
pub fn detect_target(option: Option<String>, filename: &String) -> (r: Option<Target>)
    ensures
        r == resolve_spec(option.deep_view(), filename@),
{
    match option {
        Some(val) => {
            let v = val.as_str();
            if str_eq(v, "asm") {
                Some(Target::Assembly)
            } else if str_eq(v, "bf") {
                Some(Target::Brainfuck)
            } else if str_eq(v, "dt") {
                Some(Target::DT)
            } else if str_eq(v, "ook") {
                Some(Target::Ook)
            } else if str_eq(v, "ws") {
                Some(Target::Whitespace)
            } else {
                None
            }
        },
        None => {
            let f = filename.as_str();
            match last_dot_index(f) {
                None => {
                    proof {
                        lemma_no_dot(f@);
                    }
                    Some(Target::Whitespace)
                },
                Some(i) => {
                    proof {
                        lemma_dot_suffix(f@, i as int);
                    }
                    let n = f.unicode_len();
                    let ext = f.substring_char(i + 1, n);
                    if str_eq(ext, "asm") {
                        Some(Target::Assembly)
                    } else if str_eq(ext, "bf") {
                        Some(Target::Brainfuck)
                    } else if str_eq(ext, "dt") {
                        Some(Target::DT)
                    } else if str_eq(ext, "ook") {
                        Some(Target::Ook)
                    } else {
                        Some(Target::Whitespace)
                    }
                },
            }
        },
    }
}

} // verus!
