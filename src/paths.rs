//! Path strings: home-directory expansion, joining a relative path, and the
//! final component and its parent.
use vstd::prelude::*;
use vstd::string::*;

verus! {

/// `s` with every `~` replaced by `home`.
pub open spec fn replace_tilde(s: Seq<char>, home: Seq<char>) -> Seq<char>
    decreases s.len(),
{
    if s.len() == 0 {
        s
    } else {
        replace_tilde(s.drop_last(), home) + if s.last() == '~' {
            home
        } else {
            seq![s.last()]
        }
    }
}

/// `rel`, a relative path, appended to `base` with one separator between.
pub open spec fn joined(base: Seq<char>, rel: Seq<char>) -> Seq<char> {
    if base.len() == 0 || base.last() == '/' {
        base + rel
    } else {
        base + seq!['/'] + rel
    }
}

/// Position of the last `/` of `s`, or -1.
pub open spec fn last_slash(s: Seq<char>) -> int
    decreases s.len(),
{
    if s.len() == 0 {
        -1
    } else if s.last() == '/' {
        s.len() - 1
    } else {
        last_slash(s.drop_last())
    }
}

/// The final component of `s`: what follows its last `/`.
pub open spec fn file_name(s: Seq<char>) -> Seq<char> {
    s.subrange(last_slash(s) + 1, s.len() as int)
}

/// What precedes the final component: empty for a bare name, `/` for an entry
/// of the root.
pub open spec fn parent(s: Seq<char>) -> Seq<char> {
    if last_slash(s) < 0 {
        Seq::empty()
    } else if last_slash(s) == 0 {
        seq!['/']
    } else {
        s.subrange(0, last_slash(s))
    }
}

/// `s` names an entry: its final component is neither empty nor `.` or `..`.
pub open spec fn has_file_name(s: Seq<char>) -> bool {
    let name = file_name(s);
    name.len() > 0 && name != seq!['.'] && name != seq!['.', '.']
}

pub open spec fn has_suffix(s: Seq<char>, suffix: Seq<char>) -> bool {
    s.len() >= suffix.len() && s.subrange(s.len() - suffix.len(), s.len() as int) == suffix
}

proof fn lemma_last_slash_range(s: Seq<char>)
    ensures
        -1 <= last_slash(s) < s.len(),
        last_slash(s) >= 0 ==> s[last_slash(s)] == '/',
        forall|k: int| last_slash(s) < k < s.len() ==> s[k] != '/',
    decreases s.len(),
{
    if s.len() > 0 && s.last() != '/' {
        lemma_last_slash_range(s.drop_last());
        assert forall|k: int| last_slash(s) < k < s.len() implies s[k] != '/' by {
            if k < s.len() - 1 {
                assert(s[k] == s.drop_last()[k]);
            }
        }
    }
}

/// Replaces every `~` of `path` by `home`.
pub fn expand_home(path: &str, home: &str) -> (r: String)
    ensures
        r@ == replace_tilde(path@, home@),
{
    let n = path.unicode_len();
    let mut out = String::new();
    let mut i: usize = 0;
    while i < n
        invariant
            n == path@.len(),
            i <= n,
            out@ == replace_tilde(path@.subrange(0, i as int), home@),
        decreases n - i,
    {
        assert(path@.subrange(0, i + 1).drop_last() =~= path@.subrange(0, i as int));
        if path.get_char(i) == '~' {
            out.append(home);
        } else {
            let one = path.substring_char(i, i + 1);
            assert(one@ =~= seq![path@[i as int]]);
            out.append(one);
        }
        i += 1;
    }
    assert(path@.subrange(0, n as int) =~= path@);
    out
}

/// Appends the relative path `rel` to `base`.
pub fn join_path(base: &str, rel: &str) -> (r: String)
    ensures
        r@ == joined(base@, rel@),
{
    let n = base.unicode_len();
    let mut out = base.to_owned();
    if n > 0 && base.get_char(n - 1) != '/' {
        out.append("/");
        proof {
            reveal_strlit("/");
        }
    }
    out.append(rel);
    out
}

/// Whether `s` ends with `suffix`.
pub fn ends_with(s: &str, suffix: &str) -> (r: bool)
    ensures
        r == has_suffix(s@, suffix@),
{
    let n = s.unicode_len();
    let k = suffix.unicode_len();
    if n < k {
        return false;
    }
    let mut i: usize = 0;
    while i < k
        invariant
            n == s@.len(),
            k == suffix@.len(),
            k <= n,
            i <= k,
            forall|j: int| 0 <= j < i ==> s@[n - k + j] == suffix@[j],
        decreases k - i,
    {
        if s.get_char(n - k + i) != suffix.get_char(i) {
            assert(s@.subrange(n - k, n as int)[i as int] != suffix@[i as int]);
            return false;
        }
        i += 1;
    }
    assert(s@.subrange(n - k, n as int) =~= suffix@);
    true
}

/// Position of the last `/` of `s`, or `None`.
fn find_last_slash(s: &str) -> (r: Option<usize>)
    ensures
        match r {
            Some(i) => last_slash(s@) == i,
            None => last_slash(s@) == -1,
        },
{
    let mut i: usize = s.unicode_len();
    assert(s@.subrange(0, i as int) =~= s@);
    while i > 0
        invariant
            i <= s@.len(),
            last_slash(s@) == last_slash(s@.subrange(0, i as int)),
        decreases i,
    {
        let j = i - 1;
        assert(s@.subrange(0, i as int).drop_last() =~= s@.subrange(0, j as int));
        if s.get_char(j) == '/' {
            return Some(j);
        }
        i = j;
    }
    None
}

/// The final component of `path` and what precedes it.
pub fn split_file_name(path: &str) -> (r: (String, String))
    ensures
        r.0@ == file_name(path@),
        r.1@ == parent(path@),
{
    proof {
        lemma_last_slash_range(path@);
    }
    let n = path.unicode_len();
    match find_last_slash(path) {
        Some(i) => {
            let name = path.substring_char(i + 1, n).to_owned();
            let dir = if i == 0 {
                proof {
                    reveal_strlit("/");
                }
                "/".to_owned()
            } else {
                path.substring_char(0, i).to_owned()
            };
            (name, dir)
        },
        None => {
            assert(path@.subrange(0, n as int) =~= path@);
            (path.to_owned(), String::new())
        },
    }
}

/// Whether `path` names an entry (see `has_file_name`).
pub fn names_entry(path: &str) -> (r: bool)
    ensures
        r == has_file_name(path@),
{
    let (name, _) = split_file_name(path);
    let k = name.as_str().unicode_len();
    if k == 0 {
        return false;
    }
    let first = name.as_str().get_char(0);
    if k == 1 {
        if first == '.' {
            assert(name@ =~= seq!['.']);
            return false;
        }
        assert(name@ != seq!['.', '.']);
        return true;
    }
    if k == 2 && first == '.' && name.as_str().get_char(1) == '.' {
        assert(name@ =~= seq!['.', '.']);
        return false;
    }
    assert(name@ != seq!['.']);
    assert(name@ != seq!['.', '.']) by {
        if k == 2 {
            assert(name@[0] != '.' || name@[1] != '.');
        }
    }
    true
}

} // verus!
