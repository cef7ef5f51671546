//! File-name handling for input and output paths, over raw path bytes.
use vstd::prelude::*;

verus! {

/// The path separator.
pub const SEPARATOR: u8 = 47;

/// The byte `.` that starts a file-name extension.
pub const DOT: u8 = 46;

/// Index of the last occurrence of `b` in `s`, or -1 where there is none.
pub open spec fn last_index_of(s: Seq<u8>, b: u8) -> int
    decreases s.len(),
{
    if s.len() == 0 {
        -1
    } else if s.last() == b {
        s.len() - 1
    } else {
        last_index_of(s.drop_last(), b)
    }
}

/// The final component of a path: what follows its last separator.
pub open spec fn final_component(p: Seq<u8>) -> Seq<u8> {
    p.subrange(last_index_of(p, SEPARATOR) + 1, p.len() as int)
}

/// `..`, the component that names a parent directory.
pub open spec fn parent_dir() -> Seq<u8> {
    seq![DOT, DOT]
}

/// The file name that a path names: its final component, where that is
/// neither empty nor `.` nor `..`.
pub open spec fn file_name_of(p: Seq<u8>) -> Option<Seq<u8>> {
    let c = final_component(p);
    if c.len() == 0 || c == seq![DOT] || c == parent_dir() {
        None
    } else {
        Some(c)
    }
}

/// The stem of a file name: the part before its last `.`, unless that `.`
/// is the name's first byte or there is none, in which case the whole name.
pub open spec fn stem_of(name: Seq<u8>) -> Seq<u8> {
    let d = last_index_of(name, DOT);
    if d > 0 {
        name.subrange(0, d)
    } else {
        name
    }
}

/// The extension given to a compiled artifact, with its leading dot: `.cwasm`.
pub open spec fn artifact_suffix() -> Seq<u8> {
    seq![DOT, 99u8, 119u8, 97u8, 115u8, 109u8]
}

/// The artifact name derived from an input path: the stem of its file name
/// followed by `.cwasm`, with no directory part.
pub open spec fn derived_output_of(p: Seq<u8>) -> Seq<u8> {
    stem_of(file_name_of(p)->Some_0) + artifact_suffix()
}

proof fn lemma_last_index_bounds(s: Seq<u8>, b: u8)
    ensures
        -1 <= last_index_of(s, b) < s.len(),
        last_index_of(s, b) >= 0 ==> s[last_index_of(s, b)] == b,
        forall|j: int| last_index_of(s, b) < j < s.len() ==> s[j] != b,
    decreases s.len(),
{
    if s.len() > 0 && s.last() != b {
        lemma_last_index_bounds(s.drop_last(), b);
        assert(forall|j: int| 0 <= j < s.len() - 1 ==> s.drop_last()[j] == s[j]);
    }
}

/// The artifact name derived from a path that names a file is the stem of
/// that name followed by `.cwasm`, and it holds no separator: it lies in the
/// working directory, whatever directory the input is in.
pub proof fn lemma_derived_output_in_working_dir(p: Seq<u8>)
    requires
        file_name_of(p) is Some,
    ensures
        derived_output_of(p) == stem_of(final_component(p)) + artifact_suffix(),
        forall|i: int| 0 <= i < derived_output_of(p).len() ==> derived_output_of(p)[i] != SEPARATOR,
{
    lemma_last_index_bounds(p, SEPARATOR);
    let n = final_component(p);
    lemma_last_index_bounds(n, DOT);
    let st = stem_of(n);
    let o = derived_output_of(p);
    assert forall|i: int| 0 <= i < o.len() implies o[i] != SEPARATOR by {
        if i < st.len() {
            assert(o[i] == n[i]);
            assert(n[i] == p[last_index_of(p, SEPARATOR) + 1 + i]);
        } else {
            assert(o[i] == artifact_suffix()[i - st.len()]);
        }
    }
}

/// A file name without any `.` keeps all of it and gains the extension.
pub proof fn lemma_extensionless_name_gains_suffix(p: Seq<u8>)
    requires
        file_name_of(p) is Some,
        forall|i: int| 0 <= i < final_component(p).len() ==> final_component(p)[i] != DOT,
    ensures
        derived_output_of(p) == final_component(p) + artifact_suffix(),
{
    lemma_last_index_bounds(final_component(p), DOT);
}

/// Index of the last occurrence of `b` in `s`, if any.
pub fn find_last(s: &[u8], b: u8) -> (r: Option<usize>)
    ensures
        match r {
            Some(i) => i < s@.len() && i == last_index_of(s@, b),
            None => last_index_of(s@, b) == -1,
        },
{
    let mut i: usize = s.len();
    assert(s@.subrange(0, i as int) =~= s@);
    while i > 0
        invariant
            i <= s@.len(),
            last_index_of(s@, b) == last_index_of(s@.subrange(0, i as int), b),
        decreases i,
    {
        let ghost pre = s@.subrange(0, i as int);
        if s[i - 1] == b {
            return Some(i - 1);
        }
        assert(pre.drop_last() =~= s@.subrange(0, i - 1));
        i = i - 1;
    }
    assert(s@.subrange(0, 0).len() == 0);
    None
}

/// Copies `s[start..end]` and appends `suffix`.
fn copy_with(s: &[u8], start: usize, end: usize, suffix: &[u8]) -> (r: Vec<u8>)
    requires
        start <= end <= s@.len(),
    ensures
        r@ == s@.subrange(start as int, end as int) + suffix@,
{
    let mut r: Vec<u8> = Vec::new();
    let mut i: usize = start;
    while i < end
        invariant
            start <= i <= end <= s@.len(),
            r@ == s@.subrange(start as int, i as int),
        decreases end - i,
    {
        r.push(s[i]);
        i = i + 1;
        assert(r@ =~= s@.subrange(start as int, i as int));
    }
    let mut j: usize = 0;
    while j < suffix.len()
        invariant
            j <= suffix@.len(),
            r@ == s@.subrange(start as int, end as int) + suffix@.subrange(0, j as int),
        decreases suffix@.len() - j,
    {
        r.push(suffix[j]);
        j = j + 1;
        assert(r@ =~= s@.subrange(start as int, end as int) + suffix@.subrange(0, j as int));
    }
    assert(suffix@.subrange(0, j as int) =~= suffix@);
    r
}

/// The file name that `p` names, if it names one.
pub fn file_name(p: &[u8]) -> (r: Option<Vec<u8>>)
    ensures
        match r {
            Some(n) => file_name_of(p@) == Some(n@),
            None => file_name_of(p@) is None,
        },
{
    let len = p.len();
    let start: usize = match find_last(p, SEPARATOR) {
        Some(i) => {
            assert(i < len);
            i + 1
        },
        None => 0,
    };
    proof {
        lemma_last_index_bounds(p@, SEPARATOR);
    }
    let empty: [u8; 0] = [];
    let c = copy_with(p, start, p.len(), &empty);
    assert(c@ =~= final_component(p@));
    let n = c.len();
    if n == 0 {
        return None;
    }
    if n == 1 && c[0] == DOT {
        assert(c@ =~= seq![DOT]);
        return None;
    }
    if n == 2 && c[0] == DOT && c[1] == DOT {
        assert(c@ =~= parent_dir());
        return None;
    }
    assert(c@ != seq![DOT]) by {
        if n == 1 {
            assert(c@[0] != seq![DOT][0]);
        }
    }
    assert(c@ != parent_dir()) by {
        if n == 2 {
            assert(c@[0] != parent_dir()[0] || c@[1] != parent_dir()[1]);
        }
    }
    Some(c)
}

/// The stem of the file name `name`.
pub fn file_stem(name: &[u8]) -> (r: Vec<u8>)
    ensures
        r@ == stem_of(name@),
{
    let empty: [u8; 0] = [];
    match find_last(name, DOT) {
        Some(d) if d > 0 => {
            proof {
                lemma_last_index_bounds(name@, DOT);
            }
            copy_with(name, 0, d, &empty)
        },
        _ => {
            proof {
                lemma_last_index_bounds(name@, DOT);
            }
            let r = copy_with(name, 0, name.len(), &empty);
            assert(r@ =~= name@);
            r
        },
    }
}

/// The artifact name derived from `input`, where `input` names a file.
pub fn derived_output(input: &[u8]) -> (r: Option<Vec<u8>>)
    ensures
        match r {
            Some(o) => file_name_of(input@) is Some && o@ == derived_output_of(input@),
            None => file_name_of(input@) is None,
        },
{
    match file_name(input) {
        None => None,
        Some(name) => {
            let stem = file_stem(&name);
            let suffix: [u8; 6] = [DOT, 99, 119, 97, 115, 109];
            assert(suffix@ =~= artifact_suffix());
            let o = copy_with(&stem, 0, stem.len(), &suffix);
            assert(stem@.subrange(0, stem@.len() as int) =~= stem@);
            Some(o)
        },
    }
}

} // verus!
