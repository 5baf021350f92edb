//! Line-oriented text: splitting into lines, trimming white space, and the
//! listings that the winetricks script prints.
use vstd::prelude::*;
use vstd::string::*;

verus! {

/// The Unicode `White_Space` characters.
pub open spec fn is_white_space(c: char) -> bool {
    ||| c == '\t' || c == '\n' || c == '\u{0B}' || c == '\u{0C}' || c == '\r' || c == ' '
    ||| c == '\u{85}' || c == '\u{A0}' || c == '\u{1680}'
    ||| ('\u{2000}' <= c && c <= '\u{200A}')
    ||| c == '\u{2028}' || c == '\u{2029}' || c == '\u{202F}' || c == '\u{205F}' || c == '\u{3000}'
}

fn white_space(c: char) -> (r: bool)
    ensures
        r == is_white_space(c),
{
    c == '\t' || c == '\n' || c == '\u{0B}' || c == '\u{0C}' || c == '\r' || c == ' ' || c == '\u{85}'
        || c == '\u{A0}' || c == '\u{1680}' || ('\u{2000}' <= c && c <= '\u{200A}') || c == '\u{2028}'
        || c == '\u{2029}' || c == '\u{202F}' || c == '\u{205F}' || c == '\u{3000}'
}

/// Number of white-space characters that `s` starts with.
pub open spec fn leading_white(s: Seq<char>) -> nat
    decreases s.len(),
{
    if s.len() > 0 && is_white_space(s[0]) {
        1 + leading_white(s.subrange(1, s.len() as int))
    } else {
        0
    }
}

/// Number of white-space characters that `s` ends with.
pub open spec fn trailing_white(s: Seq<char>) -> nat
    decreases s.len(),
{
    if s.len() > 0 && is_white_space(s.last()) {
        1 + trailing_white(s.drop_last())
    } else {
        0
    }
}

/// `s` without leading and trailing white space.
pub open spec fn trimmed(s: Seq<char>) -> Seq<char> {
    let front = s.subrange(leading_white(s) as int, s.len() as int);
    front.subrange(0, front.len() - trailing_white(front))
}

proof fn lemma_leading_white(s: Seq<char>, i: int)
    requires
        0 <= i <= s.len(),
        forall|k: int| 0 <= k < i ==> is_white_space(#[trigger] s[k]),
        i == s.len() || !is_white_space(s[i]),
    ensures
        leading_white(s) == i,
    decreases i,
{
    if i > 0 {
        let t = s.subrange(1, s.len() as int);
        assert forall|k: int| 0 <= k < i - 1 implies is_white_space(#[trigger] t[k]) by {
            assert(t[k] == s[k + 1]);
        }
        if i - 1 < t.len() {
            assert(t[i - 1] == s[i]);
        }
        lemma_leading_white(t, i - 1);
    }
}

proof fn lemma_trailing_white(s: Seq<char>, j: int)
    requires
        0 <= j <= s.len(),
        forall|k: int| j <= k < s.len() ==> is_white_space(#[trigger] s[k]),
        j == 0 || !is_white_space(s[j - 1]),
    ensures
        trailing_white(s) == s.len() - j,
    decreases s.len() - j,
{
    if j < s.len() {
        let t = s.drop_last();
        assert forall|k: int| j <= k < t.len() implies is_white_space(#[trigger] t[k]) by {
            assert(t[k] == s[k]);
        }
        if j > 0 {
            assert(t[j - 1] == s[j - 1]);
        }
        lemma_trailing_white(t, j);
    }
}

/// `s` without leading and trailing white space.
pub fn trim(s: &str) -> (r: String)
    ensures
        r@ == trimmed(s@),
{
    let n = s.unicode_len();
    let mut i: usize = 0;
    while i < n && white_space(s.get_char(i))
        invariant
            n == s@.len(),
            i <= n,
            forall|k: int| 0 <= k < i ==> is_white_space(#[trigger] s@[k]),
        decreases n - i,
    {
        i += 1;
    }
    proof {
        lemma_leading_white(s@, i as int);
    }
    let mut j: usize = n;
    while j > i && white_space(s.get_char(j - 1))
        invariant
            n == s@.len(),
            i <= j <= n,
            forall|k: int| j <= k < n ==> is_white_space(#[trigger] s@[k]),
        decreases j,
    {
        j -= 1;
    }
    let ghost front = s@.subrange(i as int, n as int);
    proof {
        assert forall|k: int| j - i <= k < front.len() implies is_white_space(#[trigger] front[k]) by {
            assert(front[k] == s@[i + k]);
        }
        if j > i {
            assert(front[j - i - 1] == s@[j - 1]);
        }
        lemma_trailing_white(front, j - i);
    }
    let r = s.substring_char(i, j).to_owned();
    assert(r@ =~= front.subrange(0, front.len() - trailing_white(front)));
    r
}

/// The lines of `s`: the pieces between `\n` characters. A final `\n` ends the
/// last line rather than starting an empty one.
pub open spec fn lines_of(s: Seq<char>) -> Seq<Seq<char>>
    decreases s.len(),
{
    if s.len() == 0 {
        Seq::empty()
    } else {
        let prev = s.drop_last();
        let done = lines_of(prev);
        if s.last() == '\n' {
            if prev.len() == 0 || prev.last() == '\n' {
                done.push(Seq::empty())
            } else {
                done
            }
        } else if prev.len() == 0 || prev.last() == '\n' {
            done.push(seq![s.last()])
        } else {
            done.drop_last().push(done.last().push(s.last()))
        }
    }
}

pub open spec fn is_first_space(s: Seq<char>, p: int) -> bool {
    &&& 0 <= p < s.len()
    &&& s[p] == ' '
    &&& forall|k: int| 0 <= k < p ==> s[k] != ' '
}

/// Position of the first space of `s`, if any.
pub open spec fn first_space(s: Seq<char>) -> Option<int> {
    if exists|p: int| is_first_space(s, p) {
        Some(choose|p: int| is_first_space(s, p))
    } else {
        None
    }
}

pub open spec fn is_plain_key_char(c: char) -> bool {
    c == '_' || ('a' <= c && c <= 'z') || ('A' <= c && c <= 'Z') || ('0' <= c && c <= '9')
}

/// `name` as a key: left as it is where every character is a letter, a digit
/// or `_`, else in double quotes.
pub open spec fn quoted_key(name: Seq<char>) -> Seq<char> {
    if forall|k: int| 0 <= k < name.len() ==> is_plain_key_char(#[trigger] name[k]) {
        name
    } else {
        seq!['"'] + name + seq!['"']
    }
}

/// The entry that one listing line gives: the text before its first space
/// (trimmed, and quoted where needed) and the text after it (trimmed). An
/// empty line, or one without a space, gives none.
pub open spec fn listing_entry(line: Seq<char>) -> Option<(Seq<char>, Seq<char>)> {
    match first_space(line) {
        Some(p) => Some(
            (
                quoted_key(trimmed(line.subrange(0, p))),
                trimmed(line.subrange(p + 1, line.len() as int)),
            ),
        ),
        None => None,
    }
}

/// The entries of a listing, line by line.
pub open spec fn listing_entries(lines: Seq<Seq<char>>) -> Seq<(Seq<char>, Seq<char>)>
    decreases lines.len(),
{
    if lines.len() == 0 {
        Seq::empty()
    } else {
        let rest = listing_entries(lines.drop_last());
        match listing_entry(lines.last()) {
            Some(e) => rest.push(e),
            None => rest,
        }
    }
}

pub open spec fn strings_view(v: Seq<String>) -> Seq<Seq<char>> {
    v.map_values(|x: String| x@)
}

pub open spec fn pairs_view(v: Seq<(String, String)>) -> Seq<(Seq<char>, Seq<char>)> {
    v.map_values(|x: (String, String)| (x.0@, x.1@))
}

/// Splits `s` into its lines (see `lines_of`).
pub fn split_lines(s: &str) -> (r: Vec<String>)
    ensures
        strings_view(r@) == lines_of(s@),
{
    let n = s.unicode_len();
    let mut lines: Vec<String> = Vec::new();
    let mut cur = String::new();
    let mut i: usize = 0;
    while i < n
        invariant
            n == s@.len(),
            i <= n,
            cur@.len() > 0 <==> (i > 0 && s@[i - 1] != '\n'),
            lines_of(s@.subrange(0, i as int)) == if cur@.len() > 0 {
                strings_view(lines@).push(cur@)
            } else {
                strings_view(lines@)
            },
        decreases n - i,
    {
        let ghost prefix = s@.subrange(0, i as int);
        assert(s@.subrange(0, i + 1).drop_last() =~= prefix);
        let c = s.get_char(i);
        let ghost before = lines@;
        let ghost old_cur = cur@;
        proof {
            if i > 0 {
                assert(prefix.last() == s@[i - 1]);
            }
            if old_cur.len() == 0 {
                assert(old_cur =~= Seq::<char>::empty());
            }
        }
        if c == '\n' {
            lines.push(cur);
            cur = String::new();
            assert(strings_view(lines@) =~= strings_view(before).push(old_cur));
        } else {
            let one = s.substring_char(i, i + 1);
            assert(one@ =~= seq![c]);
            cur.append(one);
            assert(cur@ =~= old_cur.push(c));
            proof {
                if old_cur.len() > 0 {
                    assert(strings_view(before).push(old_cur).drop_last() =~= strings_view(before));
                } else {
                    assert(cur@ =~= seq![c]);
                }
            }
        }
        i += 1;
    }
    assert(s@.subrange(0, n as int) =~= s@);
    if cur.as_str().unicode_len() > 0 {
        let ghost before = lines@;
        lines.push(cur);
        assert(strings_view(lines@) =~= strings_view(before).push(lines@.last()@));
    }
    lines
}

/// Position of the first space of `s`, if any.
fn find_first_space(s: &str) -> (r: Option<usize>)
    ensures
        match r {
            Some(p) => first_space(s@) == Some(p as int),
            None => first_space(s@) is None,
        },
{
    let n = s.unicode_len();
    let mut i: usize = 0;
    while i < n
        invariant
            n == s@.len(),
            i <= n,
            forall|k: int| 0 <= k < i ==> s@[k] != ' ',
        decreases n - i,
    {
        if s.get_char(i) == ' ' {
            assert(is_first_space(s@, i as int));
            let ghost q = choose|q: int| is_first_space(s@, q);
            assert(q == i);
            return Some(i);
        }
        i += 1;
    }
    None
}

/// `name` as a key (see `quoted_key`).
pub fn quote_key(name: &str) -> (r: String)
    ensures
        r@ == quoted_key(name@),
{
    let n = name.unicode_len();
    let mut i: usize = 0;
    while i < n
        invariant
            n == name@.len(),
            i <= n,
            forall|k: int| 0 <= k < i ==> is_plain_key_char(#[trigger] name@[k]),
        decreases n - i,
    {
        let c = name.get_char(i);
        if !(c == '_' || ('a' <= c && c <= 'z') || ('A' <= c && c <= 'Z') || ('0' <= c && c <= '9')) {
            let mut r = "\"".to_owned();
            r.append(name);
            r.append("\"");
            proof {
                reveal_strlit("\"");
            }
            assert(!is_plain_key_char(name@[i as int]));
            return r;
        }
        i += 1;
    }
    name.to_owned()
}

/// The entries of a winetricks listing (see `listing_entries`): per line, the
/// verb before the first space and its description after it.
pub fn parse_winetricks(output: &str) -> (r: Vec<(String, String)>)
    ensures
        pairs_view(r@) == listing_entries(lines_of(output@)),
{
    let lines = split_lines(output);
    let ghost lv = strings_view(lines@);
    let mut list: Vec<(String, String)> = Vec::new();
    let mut i: usize = 0;
    while i < lines.len()
        invariant
            i <= lines@.len(),
            lv == strings_view(lines@),
            lv == lines_of(output@),
            pairs_view(list@) == listing_entries(lv.subrange(0, i as int)),
        decreases lines@.len() - i,
    {
        assert(lv.subrange(0, i + 1).drop_last() =~= lv.subrange(0, i as int));
        let line = lines[i].as_str();
        let n = line.unicode_len();
        match find_first_space(line) {
            Some(p) => {
                let lhs = trim(line.substring_char(0, p));
                let rhs = trim(line.substring_char(p + 1, n));
                let ghost before = list@;
                list.push((quote_key(lhs.as_str()), rhs));
                assert(pairs_view(list@) =~= pairs_view(before).push((list@.last().0@, list@.last().1@)));
            },
            None => {},
        }
        i += 1;
    }
    assert(lv.subrange(0, lines@.len() as int) =~= lv);
    list
}

} // verus!
