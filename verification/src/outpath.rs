//! Resolution of the final artifact path.
//!
//! Paths are byte strings. The resolver is pure and total: from the source
//! path, the optional output specifier and the source's file stem it yields
//! the candidate artifact path; whether that path is writable is only found
//! out when the encoder runs.
//!
//! The rules, in priority order:
//! 1. no specifier: a sibling of the source named `<stem>-gifski.gif`;
//! 2. specifier with a path separator: used verbatim, no extension forced;
//! 3. bare specifier with an extension: placed beside the source, verbatim;
//! 4. bare specifier without an extension: placed beside the source with
//!    `.gif` appended.

use vstd::prelude::*;

use crate::bytes::push_all;

verus! {

/// The path separator byte.
pub open spec fn sep() -> u8 {
    '/' as u8
}

/// The extension separator byte.
pub open spec fn dot() -> u8 {
    '.' as u8
}

/// The animation extension appended by rules 1 and 4: `.gif`.
pub open spec fn gif_ext() -> Seq<u8> {
    seq![dot(), 'g' as u8, 'i' as u8, 'f' as u8]
}

/// The suffix naming the encoding tool in rule 1: `-gifski`.
pub open spec fn default_suffix() -> Seq<u8> {
    seq!['-' as u8, 'g' as u8, 'i' as u8, 'f' as u8, 's' as u8, 'k' as u8, 'i' as u8]
}

/// Everything before the last separator: `""` for a bare name, `"/"` when
/// the last separator is the leading one.
pub open spec fn parent_dir(p: Seq<u8>) -> Seq<u8> {
    match p.index_of_last(sep()) {
        Some(i) => if i == 0 {
            seq![sep()]
        } else {
            p.subrange(0, i)
        },
        None => Seq::empty(),
    }
}

/// Everything after the last separator; the whole path when there is none.
pub open spec fn base_name(p: Seq<u8>) -> Seq<u8> {
    match p.index_of_last(sep()) {
        Some(i) => p.subrange(i + 1, p.len() as int),
        None => p,
    }
}

/// Whether a bare file name carries an extension: it is neither `.` nor
/// `..` and has a `.` somewhere after its first byte.
pub open spec fn has_extension(n: Seq<u8>) -> bool {
    &&& n != seq![dot()]
    &&& n != seq![dot(), dot()]
    &&& match n.index_of_last(dot()) {
        Some(i) => i >= 1,
        None => false,
    }
}

/// A bare file name with its extension (and the `.`) removed; the name
/// itself when it has none.
pub open spec fn stem_of_name(n: Seq<u8>) -> Seq<u8> {
    if has_extension(n) {
        n.subrange(0, n.index_of_last(dot()).unwrap())
    } else {
        n
    }
}

/// The file stem of a path: its base name without the extension. `None`
/// when the path has no usable stem (empty base name, `.` or `..`).
pub open spec fn file_stem_spec(p: Seq<u8>) -> Option<Seq<u8>> {
    let n = base_name(p);
    if n.len() == 0 || n == seq![dot()] || n == seq![dot(), dot()] {
        None
    } else {
        Some(stem_of_name(n))
    }
}

/// `dir` and `name` joined with a single separator; an empty `dir`
/// contributes nothing.
pub open spec fn join_spec(dir: Seq<u8>, name: Seq<u8>) -> Seq<u8> {
    if dir.len() == 0 {
        name
    } else if dir[dir.len() - 1] == sep() {
        dir + name
    } else {
        dir + seq![sep()] + name
    }
}

/// The resolved artifact path, by the four rules above.
pub open spec fn resolve_output_spec(source: Seq<u8>, out: Option<Seq<u8>>, stem: Seq<u8>) -> Seq<u8> {
    let dir = parent_dir(source);
    match out {
        Some(s) => if s.contains(sep()) {
            s
        } else if has_extension(s) {
            join_spec(dir, s)
        } else {
            join_spec(dir, s + gif_ext())
        },
        None => join_spec(dir, stem + default_suffix() + gif_ext()),
    }
}

/// The index of the last occurrence of `b` in `s`, if any.
fn find_last(s: &[u8], b: u8) -> (r: Option<usize>)
    ensures
        match r {
            Some(i) => s@.index_of_last(b) == Some(i as int),
            None => s@.index_of_last(b) is None,
        },
{
    proof {
        s@.index_of_last_ensures(b);
    }
    let mut i: usize = s.len();
    while i > 0
        invariant
            i <= s@.len(),
            forall|j: int| i <= j < s@.len() ==> s@[j] != b,
            s@.index_of_last(b) matches Some(k) ==> 0 <= k < s@.len() && s@[k] == b
                && forall|j: int| k < j < s@.len() ==> s@[j] != b,
            s@.index_of_last(b) is None ==> !s@.contains(b),
        decreases i,
    {
        i = i - 1;
        if s[i] == b {
            return Some(i);
        }
    }
    assert(!s@.contains(b)) by {
        assert(forall|j: int| 0 <= j < s@.len() ==> s@[j] != b);
    }
    None
}

/// Whether the path contains a separator anywhere.
fn contains_sep(s: &[u8]) -> (r: bool)
    ensures
        r == s@.contains(sep()),
{
    proof {
        s@.index_of_last_ensures(sep());
    }
    match find_last(s, '/' as u8) {
        Some(i) => {
            assert(s@[i as int] == sep());
            true
        },
        None => false,
    }
}

/// Whether the bare name `n` carries an extension.
fn name_has_extension(n: &[u8]) -> (r: bool)
    ensures
        r == has_extension(n@),
{
    if n.len() == 1 && n[0] == '.' as u8 {
        proof {
            assert(n@ =~= seq![dot()]);
        }
        return false;
    }
    if n.len() == 2 && n[0] == '.' as u8 && n[1] == '.' as u8 {
        proof {
            assert(n@ =~= seq![dot(), dot()]);
        }
        return false;
    }
    proof {
        assert(n@ != seq![dot()] && n@ != seq![dot(), dot()]);
    }
    match find_last(n, '.' as u8) {
        Some(i) => i >= 1,
        None => false,
    }
}

/// The directory part of `p`, as [`parent_dir`] gives it.
fn parent_dir_exec(p: &[u8]) -> (r: Vec<u8>)
    ensures
        r@ == parent_dir(p@),
{
    match find_last(p, '/' as u8) {
        Some(i) => {
            if i == 0 {
                let mut v: Vec<u8> = Vec::new();
                v.push('/' as u8);
                proof {
                    assert(v@ =~= seq![sep()]);
                }
                v
            } else {
                proof {
                    p@.index_of_last_ensures(sep());
                }
                vstd::slice::slice_to_vec(vstd::slice::slice_subrange(p, 0, i))
            }
        },
        None => Vec::new(),
    }
}

/// The file stem of `p`: its base name without the extension, `None` when
/// the path has no usable stem. A run whose source path has no stem is
/// rejected as a configuration error before anything else happens.
pub fn file_stem(p: &[u8]) -> (r: Option<Vec<u8>>)
    ensures
        match r {
            Some(v) => file_stem_spec(p@) == Some(v@),
            None => file_stem_spec(p@) is None,
        },
{
    proof {
        p@.index_of_last_ensures(sep());
    }
    let n = p.len();
    let name: &[u8] = match find_last(p, '/' as u8) {
        Some(i) => vstd::slice::slice_subrange(p, i + 1, n),
        None => p,
    };
    assert(name@ == base_name(p@));
    if name.len() == 0 {
        return None;
    }
    if name.len() == 1 && name[0] == '.' as u8 {
        proof {
            assert(name@ =~= seq![dot()]);
        }
        return None;
    }
    if name.len() == 2 && name[0] == '.' as u8 && name[1] == '.' as u8 {
        proof {
            assert(name@ =~= seq![dot(), dot()]);
        }
        return None;
    }
    proof {
        assert(name@ != seq![dot()] && name@ != seq![dot(), dot()]);
    }
    if name_has_extension(name) {
        proof {
            name@.index_of_last_ensures(dot());
        }
        let k = match find_last(name, '.' as u8) {
            Some(k) => k,
            None => 0,
        };
        assert(k >= 1);
        Some(vstd::slice::slice_to_vec(vstd::slice::slice_subrange(name, 0, k)))
    } else {
        Some(vstd::slice::slice_to_vec(name))
    }
}

/// Join `dir` and `name` with a single separator.
pub fn join_path(dir: &[u8], name: &[u8]) -> (r: Vec<u8>)
    ensures
        r@ == join_spec(dir@, name@),
{
    if dir.len() == 0 {
        vstd::slice::slice_to_vec(name)
    } else {
        let mut v = vstd::slice::slice_to_vec(dir);
        if dir[dir.len() - 1] != '/' as u8 {
            v.push('/' as u8);
            proof {
                assert(v@ =~= dir@ + seq![sep()]);
            }
        }
        push_all(&mut v, name);
        v
    }
}

/// Append `.gif` to `v`.
fn push_gif_ext(v: &mut Vec<u8>)
    ensures
        final(v)@ == old(v)@ + gif_ext(),
{
    v.push('.' as u8);
    v.push('g' as u8);
    v.push('i' as u8);
    v.push('f' as u8);
    proof {
        assert(v@ =~= old(v)@ + gif_ext());
    }
}

/// Append `-gifski` to `v`.
fn push_default_suffix(v: &mut Vec<u8>)
    ensures
        final(v)@ == old(v)@ + default_suffix(),
{
    v.push('-' as u8);
    v.push('g' as u8);
    v.push('i' as u8);
    v.push('f' as u8);
    v.push('s' as u8);
    v.push('k' as u8);
    v.push('i' as u8);
    proof {
        assert(v@ =~= old(v)@ + default_suffix());
    }
}

/// Resolve the artifact path from the source path, the optional output
/// specifier and the source's file stem, by the four rules above.
pub fn resolve_output(source: &[u8], out: Option<&[u8]>, stem: &[u8]) -> (r: Vec<u8>)
    ensures
        r@ == resolve_output_spec(
            source@,
            match out {
                Some(s) => Some(s@),
                None => None,
            },
            stem@,
        ),
{
    match out {
        Some(s) => {
            if contains_sep(s) {
                vstd::slice::slice_to_vec(s)
            } else {
                let dir = parent_dir_exec(source);
                if name_has_extension(s) {
                    join_path(dir.as_slice(), s)
                } else {
                    let mut name = vstd::slice::slice_to_vec(s);
                    push_gif_ext(&mut name);
                    join_path(dir.as_slice(), name.as_slice())
                }
            }
        },
        None => {
            let dir = parent_dir_exec(source);
            let mut name = vstd::slice::slice_to_vec(stem);
            push_default_suffix(&mut name);
            push_gif_ext(&mut name);
            proof {
                assert(name@ == stem@ + default_suffix() + gif_ext());
            }
            join_path(dir.as_slice(), name.as_slice())
        },
    }
}

} // verus!
