//! `/`-separated paths: file names, extensions, joining and containment.

use vstd::prelude::*;

verus! {

/// Index of the last occurrence of `c` in `s`, if any.
pub open spec fn last_index_of(s: Seq<char>, c: char) -> Option<int>
    decreases s.len(),
{
    if s.len() == 0 {
        None
    } else if s.last() == c {
        Some(s.len() - 1)
    } else {
        last_index_of(s.drop_last(), c)
    }
}

/// A path without its trailing separators and trailing `.` components:
/// `a/b/` and `a/b/.` both end at `a/b`.
pub open spec fn trim_tail(p: Seq<char>) -> Seq<char>
    decreases p.len(),
{
    if p.len() > 0 && p.last() == '/' {
        trim_tail(p.drop_last())
    } else if p.len() >= 2 && p.last() == '.' && p[p.len() - 2] == '/' {
        trim_tail(p.drop_last())
    } else {
        p
    }
}

/// The last component of a path: what follows the last `/` once trailing
/// separators and `.` components are set aside. A path whose last component
/// is empty (the root), `.` or `..` names no file.
pub open spec fn file_name_of(p: Seq<char>) -> Option<Seq<char>> {
    let t = trim_tail(p);
    let name = match last_index_of(t, '/') {
        Some(k) => t.subrange(k + 1, t.len() as int),
        None => t,
    };
    if name.len() == 0 || name == seq!['.'] || name == seq!['.', '.'] {
        None
    } else {
        Some(name)
    }
}

/// The extension of a path: what follows the last `.` of its file name,
/// unless that `.` opens the name.
pub open spec fn extension_of(p: Seq<char>) -> Option<Seq<char>> {
    match file_name_of(p) {
        None => None,
        Some(name) => match last_index_of(name, '.') {
            Some(k) => if k > 0 {
                Some(name.subrange(k + 1, name.len() as int))
            } else {
                None
            },
            None => None,
        },
    }
}

/// `dir` followed by `name`, with one `/` between them.
pub open spec fn join_spec(dir: Seq<char>, name: Seq<char>) -> Seq<char> {
    if dir.len() == 0 {
        name
    } else if dir.last() == '/' {
        dir + name
    } else {
        dir + seq!['/'] + name
    }
}

/// `p` is `dir` itself or lies below it, compared component by component.
pub open spec fn is_under(dir: Seq<char>, p: Seq<char>) -> bool {
    &&& dir.len() > 0
    &&& dir.len() <= p.len()
    &&& p.subrange(0, dir.len() as int) == dir
    &&& (p.len() == dir.len() || dir.last() == '/' || p[dir.len() as int] == '/')
}

fn last_index(s: &str, c: char) -> (r: Option<usize>)
    ensures
        match r {
            Some(k) => k < s@.len() && last_index_of(s@, c) == Some(k as int),
            None => last_index_of(s@, c) == None::<int>,
        },
{
    let n = s.unicode_len();
    let mut i: usize = n;
    assert(s@.subrange(0, n as int) =~= s@);
    while i > 0
        invariant
            n == s@.len(),
            i <= n,
            last_index_of(s@, c) == last_index_of(s@.subrange(0, i as int), c),
        decreases i,
    {
        let ghost prefix = s@.subrange(0, i as int);
        assert(prefix.drop_last() == s@.subrange(0, i - 1));
        if s.get_char(i - 1) == c {
            return Some(i - 1);
        }
        i = i - 1;
    }
    assert(s@.subrange(0, 0).len() == 0);
    None
}

fn is_dot_name(s: &str) -> (r: bool)
    ensures
        r == (s@ == seq!['.'] || s@ == seq!['.', '.']),
{
    let n = s.unicode_len();
    if n == 1 {
        let r = s.get_char(0) == '.';
        assert(r ==> s@ =~= seq!['.']);
        r
    } else if n == 2 {
        let r = s.get_char(0) == '.' && s.get_char(1) == '.';
        assert(r ==> s@ =~= seq!['.', '.']);
        r
    } else {
        false
    }
}

/// The file name of a path (its last component), if it has one.
pub fn file_name(p: &str) -> (r: Option<&str>)
    ensures
        match r {
            Some(n) => file_name_of(p@) == Some(n@),
            None => file_name_of(p@) == None::<Seq<char>>,
        },
{
    let mut end: usize = p.unicode_len();
    assert(p@.subrange(0, end as int) =~= p@);
    loop
        invariant
            end <= p@.len(),
            trim_tail(p@) == trim_tail(p@.subrange(0, end as int)),
        ensures
            end <= p@.len(),
            trim_tail(p@) == p@.subrange(0, end as int),
        decreases end,
    {
        let ghost cur = p@.subrange(0, end as int);
        if end > 0 && p.get_char(end - 1) == '/' {
            assert(cur.drop_last() =~= p@.subrange(0, end - 1));
            end = end - 1;
        } else if end >= 2 && p.get_char(end - 1) == '.' && p.get_char(end - 2) == '/' {
            assert(cur.drop_last() =~= p@.subrange(0, end - 1));
            end = end - 1;
        } else {
            assert(trim_tail(cur) == cur);
            break;
        }
    }
    let t = p.substring_char(0, end);
    let n = t.unicode_len();
    let name = match last_index(t, '/') {
        Some(k) => t.substring_char(k + 1, n),
        None => t.substring_char(0, n),
    };
    assert(t@.subrange(0, n as int) == t@);
    if name.unicode_len() == 0 || is_dot_name(name) {
        None
    } else {
        Some(name)
    }
}

/// The extension of a path, if its file name has one.
pub fn extension(p: &str) -> (r: Option<&str>)
    ensures
        match r {
            Some(e) => extension_of(p@) == Some(e@),
            None => extension_of(p@) == None::<Seq<char>>,
        },
{
    match file_name(p) {
        None => None,
        Some(name) => match last_index(name, '.') {
            Some(k) => if k > 0 {
                let len = name.unicode_len();
                Some(name.substring_char(k + 1, len))
            } else {
                None
            },
            None => None,
        },
    }
}

/// Joins a file or directory name onto a directory.
pub fn join(dir: &str, name: &str) -> (r: String)
    ensures
        r@ == join_spec(dir@, name@),
{
    let n = dir.unicode_len();
    if n == 0 {
        name.to_string()
    } else if dir.get_char(n - 1) == '/' {
        dir.to_string().concat(name)
    } else {
        let with_slash = dir.to_string().concat("/");
        proof {
            reveal_strlit("/");
        }
        with_slash.concat(name)
    }
}

/// Whether two texts are equal, character for character.
pub fn same_text(a: &str, b: &str) -> (r: bool)
    ensures
        r == (a@ == b@),
{
    let n = a.unicode_len();
    if n != b.unicode_len() {
        return false;
    }
    let mut i: usize = 0;
    while i < n
        invariant
            n == a@.len(),
            n == b@.len(),
            i <= n,
            forall|j: int| 0 <= j < i ==> a@[j] == b@[j],
        decreases n - i,
    {
        if a.get_char(i) != b.get_char(i) {
            return false;
        }
        i = i + 1;
    }
    assert(a@ =~= b@);
    true
}

/// Whether `p` is `dir` or lies below it.
pub fn starts_with_dir(p: &str, dir: &str) -> (r: bool)
    ensures
        r == is_under(dir@, p@),
{
    let n = dir.unicode_len();
    let m = p.unicode_len();
    if n == 0 || n > m {
        return false;
    }
    let mut i: usize = 0;
    while i < n
        invariant
            n == dir@.len(),
            m == p@.len(),
            n <= m,
            i <= n,
            forall|j: int| 0 <= j < i ==> p@[j] == dir@[j],
        decreases n - i,
    {
        if p.get_char(i) != dir.get_char(i) {
            assert(p@.subrange(0, n as int)[i as int] != dir@[i as int]);
            return false;
        }
        i = i + 1;
    }
    assert(p@.subrange(0, n as int) =~= dir@);
    n == m || dir.get_char(n - 1) == '/' || p.get_char(n) == '/'
}

} // verus!
