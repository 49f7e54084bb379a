//! File-name extension handling: reading the extension of a directory entry
//! and building the output name with the target extension, following the
//! usual path conventions (the extension is what follows the last dot of the
//! name, and a name whose only dot is the leading one has no extension).

use vstd::prelude::*;
use crate::text::{seq_eq_ci, str_eq_ci};

verus! {

/// Position `i` holds the last dot of `s`.
pub open spec fn is_last_dot(s: Seq<char>, i: int) -> bool {
    &&& 0 <= i < s.len()
    &&& s[i] == '.'
    &&& forall|j: int| i < j < s.len() ==> s[j] != '.'
}

/// The extension of file name `s`: the part after the last dot, provided
/// that dot is not the leading character.
pub open spec fn spec_extension(s: Seq<char>) -> Option<Seq<char>> {
    if exists|i: int| is_last_dot(s, i) {
        let i = choose|i: int| is_last_dot(s, i);
        if i > 0 {
            Some(s.subrange(i + 1, s.len() as int))
        } else {
            None
        }
    } else {
        None
    }
}

/// File name `s` with its extension replaced by `ext` (or with `.ext`
/// appended when `s` has no extension).
pub open spec fn spec_with_extension(s: Seq<char>, ext: Seq<char>) -> Seq<char> {
    if exists|i: int| is_last_dot(s, i) && i > 0 {
        let i = choose|i: int| is_last_dot(s, i) && i > 0;
        s.subrange(0, i) + seq!['.'] + ext
    } else {
        s + seq!['.'] + ext
    }
}

/// The extension of `name` matches `target` up to ASCII case.
pub open spec fn spec_skip_eligible(name: Seq<char>, target: Seq<char>) -> bool {
    match spec_extension(name) {
        Some(e) => seq_eq_ci(e, target),
        None => false,
    }
}

/// A sequence has at most one last dot.
pub proof fn lemma_last_dot_unique(s: Seq<char>, i: int, j: int)
    requires
        is_last_dot(s, i),
        is_last_dot(s, j),
    ensures
        i == j,
{
    if i < j {
        assert(s[j] != '.');
    } else if j < i {
        assert(s[i] != '.');
    }
}

/// The index of the last dot of `name`, if any.
fn find_last_dot(name: &str) -> (r: Option<usize>)
    ensures
        match r {
            Some(i) => is_last_dot(name@, i as int),
            None => forall|j: int| 0 <= j < name@.len() ==> name@[j] != '.',
        },
{
    let n = name.unicode_len();
    let mut i: usize = n;
    while i > 0
        invariant
            n == name@.len(),
            i <= n,
            forall|j: int| i <= j < n ==> name@[j] != '.',
        decreases i,
    {
        i = i - 1;
        if name.get_char(i) == '.' {
            return Some(i);
        }
    }
    None
}

/// The extension of file name `name`, if it has one.
pub fn extension_of(name: &str) -> (r: Option<String>)
    ensures
        match spec_extension(name@) {
            Some(e) => r matches Some(s) && s@ == e,
            None => r is None,
        },
{
    let n = name.unicode_len();
    match find_last_dot(name) {
        Some(i) => {
            proof {
                let w = choose|k: int| is_last_dot(name@, k);
                lemma_last_dot_unique(name@, w, i as int);
            }
            if i > 0 {
                Some(String::from_str(name.substring_char(i + 1, n)))
            } else {
                None
            }
        },
        None => None,
    }
}

/// `name` with its extension replaced by `ext`.
pub fn with_extension(name: &str, ext: &str) -> (r: String)
    ensures
        r@ == spec_with_extension(name@, ext@),
{
    let n = name.unicode_len();
    let stem: &str = match find_last_dot(name) {
        Some(i) => {
            proof {
                if exists|k: int| is_last_dot(name@, k) && k > 0 {
                    let w = choose|k: int| is_last_dot(name@, k) && k > 0;
                    lemma_last_dot_unique(name@, w, i as int);
                }
            }
            if i > 0 {
                name.substring_char(0, i)
            } else {
                name
            }
        },
        None => name,
    };
    let mut out = String::from_str(stem);
    out.append(".");
    out.append(ext);
    proof {
        reveal_strlit(".");
        assert("."@ =~= seq!['.']);
        assert(out@ =~= spec_with_extension(name@, ext@));
    }
    out
}

/// What the run does with one directory entry: ignore it, count it as
/// already in the target format, or try to convert it to `out_name`.
pub enum Plan {
    NotFile,
    SkipExisting,
    Candidate { out_name: String },
}

/// The decision `plan_entry` owes for an entry: non-files are ignored,
/// a file whose extension already matches the target is skipped, and any
/// other file becomes a conversion candidate with the output name built
/// from its stem and the target extension.
pub open spec fn plan_post(is_file: bool, name: Seq<char>, target: Seq<char>, p: Plan) -> bool {
    &&& (p is NotFile <==> !is_file)
    &&& (p is SkipExisting <==> is_file && spec_skip_eligible(name, target))
    &&& (p matches Plan::Candidate { out_name } ==> is_file && !spec_skip_eligible(name, target)
        && out_name@ == spec_with_extension(name, target))
    &&& (is_file && !spec_skip_eligible(name, target) ==> p is Candidate)
}

/// Decide what to do with one directory entry.
pub fn plan_entry(is_file: bool, name: &str, target_ext: &str) -> (p: Plan)
    ensures
        plan_post(is_file, name@, target_ext@, p),
{
    if !is_file {
        return Plan::NotFile;
    }
    let skip = match extension_of(name) {
        Some(e) => str_eq_ci(e.as_str(), target_ext),
        None => false,
    };
    if skip {
        Plan::SkipExisting
    } else {
        Plan::Candidate { out_name: with_extension(name, target_ext) }
    }
}

} // verus!
