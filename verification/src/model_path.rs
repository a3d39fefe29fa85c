//! Classification of launch arguments as supported model files.
//!
//! A path is a supported model file when the extension of its final
//! component equals `stl` or `3mf`, ignoring ASCII case.  The
//! extension is read as `std::path::Path::extension` reads it:
//! trailing `/` separators and `.` components are passed over to reach
//! the final real component, a final `..` names no file, and a
//! component whose only `.` begins it (a hidden file) has no
//! extension.  Only the extension is inspected; whether the file
//! exists is no concern here.

use vstd::prelude::*;

verus! {

/// The path with trailing `/` separators and trailing `.` components
/// removed, so that its final real component (if any) stands at the
/// end: path parsing reads past both when it looks for the file name.
pub open spec fn trim_trailing(s: Seq<char>) -> Seq<char>
    decreases s.len(),
{
    if s.len() == 0 {
        s
    } else if s.last() == '/' {
        trim_trailing(s.drop_last())
    } else if s.last() == '.' && (s.len() == 1 || s[s.len() - 2] == '/') {
        trim_trailing(s.drop_last())
    } else {
        s
    }
}

/// The trimmed path ends in a `..` component, which names no file.
pub open spec fn ends_in_parent(t: Seq<char>) -> bool {
    &&& t.len() >= 2
    &&& t[t.len() - 1] == '.'
    &&& t[t.len() - 2] == '.'
    &&& (t.len() == 2 || t[t.len() - 3] == '/')
}

/// The index of the `.` that begins the extension's text, scanning the
/// trimmed path from its end: the last `.` of the string, provided no
/// `/` follows it.  `None` when the final component holds no `.`.
pub open spec fn dot_split(s: Seq<char>) -> Option<int>
    decreases s.len(),
{
    if s.len() == 0 {
        None
    } else if s.last() == '.' {
        Some(s.len() - 1)
    } else if s.last() == '/' {
        None
    } else {
        dot_split(s.drop_last())
    }
}

/// The extension of a path: the text after the last `.` of its final
/// real component.  A final `..` has no extension, a component that
/// starts with its only `.` (a hidden file) has none, and neither has
/// one without any `.`.
pub open spec fn extension_of(s: Seq<char>) -> Option<Seq<char>> {
    let t = trim_trailing(s);
    if ends_in_parent(t) {
        None
    } else {
        match dot_split(t) {
            Some(p) => if p > 0 && t[p - 1] != '/' {
                Some(t.subrange(p + 1, t.len() as int))
            } else {
                None
            },
            None => None,
        }
    }
}

/// The extension text equals `stl`, ignoring ASCII case.
pub open spec fn is_stl_extension(e: Seq<char>) -> bool {
    &&& e.len() == 3
    &&& (e[0] == 's' || e[0] == 'S')
    &&& (e[1] == 't' || e[1] == 'T')
    &&& (e[2] == 'l' || e[2] == 'L')
}

/// The extension text equals `3mf`, ignoring ASCII case.
pub open spec fn is_3mf_extension(e: Seq<char>) -> bool {
    &&& e.len() == 3
    &&& e[0] == '3'
    &&& (e[1] == 'm' || e[1] == 'M')
    &&& (e[2] == 'f' || e[2] == 'F')
}

/// A path names a supported model file: its extension is `stl` or
/// `3mf`, ignoring ASCII case.
pub open spec fn is_supported_model_path_spec(s: Seq<char>) -> bool {
    match extension_of(s) {
        Some(e) => is_stl_extension(e) || is_3mf_extension(e),
        None => false,
    }
}

/// A `dot_split` position is in bounds and names a `.`.
proof fn lemma_dot_split_position(s: Seq<char>)
    ensures
        match dot_split(s) {
            Some(p) => 0 <= p < s.len() && s[p] == '.',
            None => true,
        },
    decreases s.len(),
{
    if s.len() > 0 && s.last() != '.' && s.last() != '/' {
        lemma_dot_split_position(s.drop_last());
    }
}

/// How far the path's trimmed prefix runs: everything after it is
/// trailing `/` separators and `.` components.
fn trimmed_len(path: &str) -> (m: usize)
    ensures
        m <= path@.len(),
        path@.take(m as int) == trim_trailing(path@),
{
    let n = path.unicode_len();
    let mut i = n;
    proof {
        assert(path@.take(n as int) =~= path@);
    }
    while i > 0
        invariant
            i <= n,
            n == path@.len(),
            trim_trailing(path@) == trim_trailing(path@.take(i as int)),
        decreases i,
    {
        let c = path.get_char(i - 1);
        if c != '/' && !(c == '.' && (i == 1 || path.get_char(i - 2) == '/')) {
            return i;
        }
        proof {
            assert(path@.take(i as int).drop_last() =~= path@.take(i - 1));
        }
        i = i - 1;
    }
    proof {
        assert(path@.take(0) =~= Seq::<char>::empty());
    }
    0
}

/// The position of the `.` that begins the extension's text within the
/// first `m` characters of `path`, if their final component holds one.
fn find_dot(path: &str, m: usize) -> (r: Option<usize>)
    requires
        m <= path@.len(),
    ensures
        match r {
            Some(p) => dot_split(path@.take(m as int)) == Some(p as int),
            None => dot_split(path@.take(m as int)) is None,
        },
{
    let mut i = m;
    while i > 0
        invariant
            i <= m <= path@.len(),
            dot_split(path@.take(m as int)) == dot_split(path@.take(i as int)),
        decreases i,
    {
        let c = path.get_char(i - 1);
        if c == '.' {
            return Some(i - 1);
        }
        if c == '/' {
            return None;
        }
        proof {
            assert(path@.take(i as int).drop_last() =~= path@.take(i - 1));
        }
        i = i - 1;
    }
    proof {
        assert(path@.take(0) =~= Seq::<char>::empty());
    }
    None
}

/// Whether `path` names a supported model file: the extension of its
/// final component equals `stl` or `3mf`, ignoring ASCII case.
pub fn is_supported_model_path(path: &str) -> (r: bool)
    ensures
        r == is_supported_model_path_spec(path@),
{
    let m = trimmed_len(path);
    let ghost t = trim_trailing(path@);
    if m >= 2 && path.get_char(m - 1) == '.' && path.get_char(m - 2) == '.' && (m == 2
        || path.get_char(m - 3) == '/') {
        return false;
    }
    proof {
        lemma_dot_split_position(t);
    }
    match find_dot(path, m) {
        None => false,
        Some(p) => {
            if p == 0 {
                return false;
            }
            if path.get_char(p - 1) == '/' {
                return false;
            }
            if m - p != 4 {
                return false;
            }
            let c0 = path.get_char(p + 1);
            let c1 = path.get_char(p + 2);
            let c2 = path.get_char(p + 3);
            let stl = (c0 == 's' || c0 == 'S') && (c1 == 't' || c1 == 'T') && (c2 == 'l' || c2
                == 'L');
            let mf3 = c0 == '3' && (c1 == 'm' || c1 == 'M') && (c2 == 'f' || c2 == 'F');
            stl || mf3
        },
    }
}

} // verus!
