//! Character-level path handling.
//!
//! Paths are plain text; components are separated by `/`, and on Windows
//! also by `\`. The functions here pick a path apart (final component,
//! stem, extension, parent directory) and are the foundation for the
//! launch-identity resolver and the path builder.
//!
//! The semantics is deliberately simple: a path that ends in a separator
//! has an empty final component, and the parent of a path without any
//! separator is undefined. Executable paths, the inputs these functions
//! are made for, have neither shape.

use vstd::prelude::*;
use vstd::string::*;

verus! {

/// True of the characters that separate path components: `/` everywhere,
/// and `\` as well when `windows` holds.
pub open spec fn is_sep(c: char, windows: bool) -> bool {
    c == '/' || (windows && c == '\\')
}

/// The index of the last separator of `s`, if `s` has one.
pub open spec fn last_sep_index(s: Seq<char>, windows: bool) -> Option<int>
    decreases s.len(),
{
    if s.len() == 0 {
        None
    } else if is_sep(s.last(), windows) {
        Some(s.len() - 1)
    } else {
        last_sep_index(s.drop_last(), windows)
    }
}

pub proof fn lemma_last_sep_index_bounds(s: Seq<char>, windows: bool)
    ensures
        last_sep_index(s, windows) matches Some(i) ==> 0 <= i < s.len() && is_sep(s[i], windows),
    decreases s.len(),
{
    if s.len() > 0 && !is_sep(s.last(), windows) {
        lemma_last_sep_index_bounds(s.drop_last(), windows);
    }
}

/// The index of the last `.` of `s` that does not stand first, if any.
/// A leading `.` (a hidden file's marker) never splits a stem from an
/// extension.
pub open spec fn last_dot_index(s: Seq<char>) -> Option<int>
    decreases s.len(),
{
    if s.len() <= 1 {
        None
    } else if s.last() == '.' {
        Some(s.len() - 1)
    } else {
        last_dot_index(s.drop_last())
    }
}

pub proof fn lemma_last_dot_index_bounds(s: Seq<char>)
    ensures
        last_dot_index(s) matches Some(i) ==> 1 <= i < s.len() && s[i] == '.',
    decreases s.len(),
{
    if s.len() > 1 && s.last() != '.' {
        lemma_last_dot_index_bounds(s.drop_last());
    }
}

/// The final component of `p`: what follows the last separator, or all of
/// `p` when it has none.
pub open spec fn spec_file_name(p: Seq<char>, windows: bool) -> Seq<char> {
    match last_sep_index(p, windows) {
        None => p,
        Some(i) => p.subrange(i + 1, p.len() as int),
    }
}

/// The stem of a single component: what precedes its last non-leading `.`,
/// or the whole component when it has no such `.`.
pub open spec fn spec_stem_of_name(n: Seq<char>) -> Seq<char> {
    match last_dot_index(n) {
        None => n,
        Some(i) => n.subrange(0, i),
    }
}

/// The stem of the final component of `p`.
pub open spec fn spec_file_stem(p: Seq<char>, windows: bool) -> Seq<char> {
    spec_stem_of_name(spec_file_name(p, windows))
}

/// The extension of the final component of `p`: what follows its last
/// non-leading `.`, or nothing when it has no such `.`.
pub open spec fn spec_extension(p: Seq<char>, windows: bool) -> Option<Seq<char>> {
    let n = spec_file_name(p, windows);
    match last_dot_index(n) {
        None => None,
        Some(i) => Some(n.subrange(i + 1, n.len() as int)),
    }
}

/// The parent of `p`: `p` cut at its last `/`, keeping a leading `/`.
/// A path without `/`, and the root itself, have no parent.
pub open spec fn spec_parent(p: Seq<char>) -> Option<Seq<char>> {
    match last_sep_index(p, false) {
        None => None,
        Some(i) => if i == 0 {
            if p.len() == 1 {
                None
            } else {
                Some(p.subrange(0, 1))
            }
        } else {
            Some(p.subrange(0, i))
        },
    }
}

/// The root of the `.app` bundle that `p` sits in, three levels up
/// (`Foo.app/Contents/MacOS/binary`), or `p` itself when no such bundle
/// encloses it.
pub open spec fn spec_bundle_root(p: Seq<char>) -> Seq<char> {
    match spec_parent(p) {
        None => p,
        Some(p1) => match spec_parent(p1) {
            None => p,
            Some(p2) => match spec_parent(p2) {
                None => p,
                Some(p3) => if spec_extension(p3, false) == Some(seq!['a', 'p', 'p']) {
                    p3
                } else {
                    p
                },
            },
        },
    }
}

/// The text a borrowed optional string stands for.
pub open spec fn view_opt_str(o: Option<&str>) -> Option<Seq<char>> {
    match o {
        Some(s) => Some(s@),
        None => None,
    }
}

/// The text an owned optional string stands for.
pub open spec fn view_opt_string(o: Option<String>) -> Option<Seq<char>> {
    match o {
        Some(s) => Some(s@),
        None => None,
    }
}

/// The position of the last separator of `s`, if `s` has one.
pub fn find_last_sep(s: &str, windows: bool) -> (r: Option<usize>)
    ensures
        match r {
            Some(i) => last_sep_index(s@, windows) == Some(i as int),
            None => last_sep_index(s@, windows) is None,
        },
{
    let len = s.unicode_len();
    let mut i = len;
    proof {
        assert(s@.subrange(0, len as int) =~= s@);
    }
    while i > 0
        invariant
            i <= len,
            len == s@.len(),
            last_sep_index(s@, windows) == last_sep_index(s@.subrange(0, i as int), windows),
        decreases i,
    {
        let c = s.get_char(i - 1);
        proof {
            assert(s@.subrange(0, i as int).drop_last() =~= s@.subrange(0, i as int - 1));
            assert(s@.subrange(0, i as int).last() == s@[i as int - 1]);
        }
        if c == '/' || (windows && c == '\\') {
            return Some(i - 1);
        }
        i = i - 1;
    }
    None
}

/// The position of the last non-leading `.` of `s`, if `s` has one.
pub fn find_last_dot(s: &str) -> (r: Option<usize>)
    ensures
        match r {
            Some(i) => last_dot_index(s@) == Some(i as int),
            None => last_dot_index(s@) is None,
        },
{
    let len = s.unicode_len();
    let mut i = len;
    proof {
        assert(s@.subrange(0, len as int) =~= s@);
    }
    while i > 1
        invariant
            i <= len,
            len == s@.len(),
            last_dot_index(s@) == last_dot_index(s@.subrange(0, i as int)),
        decreases i,
    {
        let c = s.get_char(i - 1);
        proof {
            assert(s@.subrange(0, i as int).drop_last() =~= s@.subrange(0, i as int - 1));
            assert(s@.subrange(0, i as int).last() == s@[i as int - 1]);
        }
        if c == '.' {
            return Some(i - 1);
        }
        i = i - 1;
    }
    None
}

/// The final component of `p`.
pub fn file_name_of<'a>(p: &'a str, windows: bool) -> (r: &'a str)
    ensures
        r@ == spec_file_name(p@, windows),
{
    let len = p.unicode_len();
    match find_last_sep(p, windows) {
        None => p,
        Some(i) => {
            proof {
                lemma_last_sep_index_bounds(p@, windows);
            }
            p.substring_char(i + 1, len)
        },
    }
}

/// The stem of the final component of `p`: the executable's base name
/// without its extension.
pub fn file_stem_of<'a>(p: &'a str, windows: bool) -> (r: &'a str)
    ensures
        r@ == spec_file_stem(p@, windows),
{
    let n = file_name_of(p, windows);
    match find_last_dot(n) {
        None => n,
        Some(i) => {
            proof {
                lemma_last_dot_index_bounds(n@);
            }
            n.substring_char(0, i)
        },
    }
}

/// The extension of the final component of `p`.
pub fn extension_of<'a>(p: &'a str, windows: bool) -> (r: Option<&'a str>)
    ensures
        match r {
            Some(e) => spec_extension(p@, windows) == Some(e@),
            None => spec_extension(p@, windows) is None,
        },
{
    let n = file_name_of(p, windows);
    let len = n.unicode_len();
    match find_last_dot(n) {
        None => None,
        Some(i) => {
            proof {
                lemma_last_dot_index_bounds(n@);
            }
            Some(n.substring_char(i + 1, len))
        },
    }
}

/// The parent directory of `p`.
pub fn parent_of<'a>(p: &'a str) -> (r: Option<&'a str>)
    ensures
        match r {
            Some(q) => spec_parent(p@) == Some(q@),
            None => spec_parent(p@) is None,
        },
{
    let len = p.unicode_len();
    match find_last_sep(p, false) {
        None => None,
        Some(i) => {
            proof {
                lemma_last_sep_index_bounds(p@, false);
            }
            if i == 0 {
                if len == 1 {
                    None
                } else {
                    Some(p.substring_char(0, 1))
                }
            } else {
                Some(p.substring_char(0, i))
            }
        },
    }
}

/// True exactly when `e` is the three characters `app`.
fn is_app_extension(e: &str) -> (r: bool)
    ensures
        r == (e@ == seq!['a', 'p', 'p']),
{
    let len = e.unicode_len();
    if len != 3 {
        proof {
            assert(seq!['a', 'p', 'p'].len() == 3);
        }
        return false;
    }
    let r = e.get_char(0) == 'a' && e.get_char(1) == 'p' && e.get_char(2) == 'p';
    proof {
        if r {
            assert(e@ =~= seq!['a', 'p', 'p']);
        } else {
            assert(e@ != seq!['a', 'p', 'p']);
        }
    }
    r
}

/// The enclosing `.app` bundle root of `p`, or `p` when there is none.
pub fn bundle_root_of<'a>(p: &'a str) -> (r: &'a str)
    ensures
        r@ == spec_bundle_root(p@),
{
    let p1 = match parent_of(p) {
        None => {
            return p;
        },
        Some(q) => q,
    };
    let p2 = match parent_of(p1) {
        None => {
            return p;
        },
        Some(q) => q,
    };
    let p3 = match parent_of(p2) {
        None => {
            return p;
        },
        Some(q) => q,
    };
    match extension_of(p3, false) {
        Some(e) => if is_app_extension(e) {
            p3
        } else {
            p
        },
        None => p,
    }
}

} // verus!
