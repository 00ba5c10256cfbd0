//! Path arithmetic on text. Paths follow the Windows convention: components
//! are joined with a backslash, and both `\` and `/` separate them when a
//! path is taken apart. Nothing here touches the file system.

use vstd::prelude::*;
use vstd::string::*;
use crate::text::chars_of;

verus! {

/// True for the two characters that separate the components of a path.
pub open spec fn is_separator(c: char) -> bool {
    c == '\\' || c == '/'
}

/// `rel` below `base`: the two texts in a row, with one backslash between
/// them unless `base` is empty or already ends in a separator.
pub open spec fn joined(base: Seq<char>, rel: Seq<char>) -> Seq<char> {
    if base.len() == 0 || is_separator(base.last()) {
        base + rel
    } else {
        base.push('\\') + rel
    }
}

/// `p` without the separators at its end.
pub open spec fn trimmed(p: Seq<char>) -> Seq<char>
    decreases p.len(),
{
    if p.len() > 0 && is_separator(p.last()) {
        trimmed(p.drop_last())
    } else {
        p
    }
}

/// The index of the last separator in `p`, or -1 where it has none.
pub open spec fn last_separator(p: Seq<char>) -> int
    decreases p.len(),
{
    if p.len() == 0 {
        -1
    } else if is_separator(p.last()) {
        p.len() - 1
    } else {
        last_separator(p.drop_last())
    }
}

/// The directory that holds `p`: `p` without its last component. A drive or
/// root keeps its separator (`C:\x` lies in `C:\`, `/x` in `/`). A path of one
/// component has no parent, nor has a root.
pub open spec fn parent_of(p: Seq<char>) -> Option<Seq<char>> {
    let q = trimmed(p);
    let i = last_separator(q);
    if i < 0 {
        None
    } else {
        let head = trimmed(q.take(i));
        if head.len() == 0 || head.last() == ':' {
            Some(q.take(i + 1))
        } else {
            Some(head)
        }
    }
}

/// True for a path that begins at a root: with a separator, or with a
/// drive, which is one character and a colon, and a separator after it.
pub open spec fn is_absolute(p: Seq<char>) -> bool {
    (p.len() >= 1 && is_separator(p[0])) || (p.len() >= 3 && p[1] == ':' && is_separator(p[2]))
}

pub fn separator(c: char) -> (r: bool)
    ensures
        r == is_separator(c),
{
    c == '\\' || c == '/'
}

pub fn absolute(path: &str) -> (r: bool)
    ensures
        r == is_absolute(path@),
{
    let chars = chars_of(path);
    let n = chars.len();
    (n >= 1 && separator(chars[0])) || (n >= 3 && chars[1] == ':' && separator(chars[2]))
}

pub fn join(base: &str, rel: &str) -> (r: String)
    ensures
        r@ == joined(base@, rel@),
{
    let chars = chars_of(base);
    let n = chars.len();
    let mut out = String::from_str(base);
    if n > 0 && !separator(chars[n - 1]) {
        proof {
            reveal_strlit("\\");
        }
        out.append("\\");
        assert(out@ =~= base@.push('\\'));
    }
    out.append(rel);
    out
}

/// The length of the first `upto` characters once the separators at their
/// end are dropped.
fn trimmed_len(chars: &Vec<char>, upto: usize) -> (k: usize)
    requires
        upto <= chars@.len(),
    ensures
        k <= upto,
        chars@.take(k as int) == trimmed(chars@.take(upto as int)),
{
    let mut k = upto;
    while k > 0 && separator(chars[k - 1])
        invariant
            k <= upto,
            upto <= chars@.len(),
            trimmed(chars@.take(k as int)) == trimmed(chars@.take(upto as int)),
        decreases k,
    {
        assert(chars@.take(k as int).drop_last() == chars@.take(k - 1));
        k -= 1;
    }
    k
}

/// The index of the last separator among the first `upto` characters.
fn last_separator_in(chars: &Vec<char>, upto: usize) -> (r: Option<usize>)
    requires
        upto <= chars@.len(),
    ensures
        match r {
            Some(i) => i < upto && last_separator(chars@.take(upto as int)) == i,
            None => last_separator(chars@.take(upto as int)) == -1,
        },
{
    let mut k = upto;
    while k > 0
        invariant
            k <= upto,
            upto <= chars@.len(),
            last_separator(chars@.take(k as int)) == last_separator(chars@.take(upto as int)),
        decreases k,
    {
        if separator(chars[k - 1]) {
            return Some(k - 1);
        }
        assert(chars@.take(k as int).drop_last() == chars@.take(k - 1));
        k -= 1;
    }
    None
}

pub fn parent(path: &str) -> (r: Option<String>)
    ensures
        match parent_of(path@) {
            Some(d) => r is Some && r->Some_0@ == d,
            None => r is None,
        },
{
    let chars = chars_of(path);
    let end = trimmed_len(&chars, chars.len());
    assert(chars@.take(chars@.len() as int) == chars@);
    let ghost q = chars@.take(end as int);
    match last_separator_in(&chars, end) {
        None => None,
        Some(i) => {
            let head = trimmed_len(&chars, i);
            assert(q.take(i as int) == chars@.take(i as int));
            assert(q.take(i + 1) == chars@.take(i + 1));
            assert(chars@.take(head as int) == path@.subrange(0, head as int));
            assert(chars@.take(i + 1) == path@.subrange(0, i + 1));
            if head == 0 || chars[head - 1] == ':' {
                Some(String::from_str(path.substring_char(0, i + 1)))
            } else {
                Some(String::from_str(path.substring_char(0, head)))
            }
        },
    }
}

/// What lies below an absolute path has an absolute path.
pub proof fn lemma_join_keeps_absolute(base: Seq<char>, rel: Seq<char>)
    requires
        is_absolute(base),
    ensures
        is_absolute(joined(base, rel)),
{
    let all = joined(base, rel);
    assert(all[0] == base[0]);
    if base.len() >= 3 {
        assert(all[1] == base[1]);
        assert(all[2] == base[2]);
    }
}

} // verus!
