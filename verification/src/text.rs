//! Small verified text utilities shared by the dispatcher: equality of
//! string slices, trimming trailing whitespace, and locating the separator
//! of a `key value` pair.

use vstd::prelude::*;

verus! {

/// Whether `c` is one of the whitespace characters trimmed from the end of
/// emitted text.
pub open spec fn is_trim_ws(c: char) -> bool {
    c == ' ' || c == '\n' || c == '\t' || c == '\r'
}

/// The length that remains of `s` once every trailing whitespace character
/// is dropped.
pub open spec fn trimmed_len(s: Seq<char>) -> int
    decreases s.len(),
{
    if s.len() == 0 {
        0
    } else if is_trim_ws(s.last()) {
        trimmed_len(s.drop_last())
    } else {
        s.len() as int
    }
}

/// `s` without its trailing whitespace.
pub open spec fn trim_end_text(s: Seq<char>) -> Seq<char> {
    s.subrange(0, trimmed_len(s))
}

/// Whether the character slices are equal.
pub fn str_eq(a: &str, b: &str) -> (r: bool)
    ensures
        r == (a@ == b@),
{
    let x: String = a.to_owned();
    let y: String = b.to_owned();
    x == y
}

fn is_ws_char(c: char) -> (r: bool)
    ensures
        r == is_trim_ws(c),
{
    c == ' ' || c == '\n' || c == '\t' || c == '\r'
}

/// `s` with every trailing whitespace character removed.
pub fn trim_end_ws(s: &str) -> (r: String)
    ensures
        r@ == trim_end_text(s@),
{
    let n: usize = s.unicode_len();
    let mut i: usize = n;
    proof {
        assert(s@.subrange(0, n as int) =~= s@);
    }
    while i > 0 && is_ws_char(s.get_char(i - 1))
        invariant
            0 <= i <= n,
            n as nat == s@.len(),
            trimmed_len(s@) == trimmed_len(s@.subrange(0, i as int)),
        decreases i,
    {
        proof {
            let pre = s@.subrange(0, i as int);
            assert(pre.last() == s@[i - 1]);
            assert(is_trim_ws(pre.last()));
            assert(pre.drop_last() =~= s@.subrange(0, i - 1));
        }
        i = i - 1;
    }
    proof {
        let pre = s@.subrange(0, i as int);
        if i > 0 {
            assert(pre.last() == s@[i - 1]);
            assert(!is_trim_ws(pre.last()));
        }
        assert(trimmed_len(pre) == i as int);
    }
    let cut = s.substring_char(0, i);
    cut.to_owned()
}

/// The position of the first space in `s`, or a negative value when `s`
/// holds none.
pub open spec fn first_space(s: Seq<char>) -> int
    decreases s.len(),
{
    if s.len() == 0 {
        -1
    } else if s[0] == ' ' {
        0
    } else if first_space(s.drop_first()) < 0 {
        -1
    } else {
        first_space(s.drop_first()) + 1
    }
}

pub proof fn lemma_first_space_bounds(s: Seq<char>)
    ensures
        first_space(s) < s.len(),
        first_space(s) >= 0 ==> s[first_space(s)] == ' ',
    decreases s.len(),
{
    if s.len() > 0 && s[0] != ' ' {
        lemma_first_space_bounds(s.drop_first());
    }
}

proof fn lemma_first_space_step(s: Seq<char>, i: int)
    requires
        0 <= i < s.len(),
        forall|j: int| 0 <= j < i ==> s[j] != ' ',
        s[i] == ' ',
    ensures
        first_space(s) == i,
    decreases s.len(),
{
    if i > 0 {
        lemma_first_space_step(s.drop_first(), i - 1);
    }
}

proof fn lemma_first_space_none(s: Seq<char>)
    requires
        forall|j: int| 0 <= j < s.len() ==> s[j] != ' ',
    ensures
        first_space(s) < 0,
    decreases s.len(),
{
    if s.len() > 0 {
        lemma_first_space_none(s.drop_first());
    }
}

/// The index of the first space character of `s`, when there is one.
pub fn find_space(s: &str) -> (r: Option<usize>)
    ensures
        r matches Some(i) ==> first_space(s@) == i as int,
        r is None ==> first_space(s@) < 0,
{
    let n: usize = s.unicode_len();
    let mut i: usize = 0;
    while i < n
        invariant
            0 <= i <= n,
            n as nat == s@.len(),
            forall|j: int| 0 <= j < i ==> s@[j] != ' ',
        decreases n - i,
    {
        if s.get_char(i) == ' ' {
            proof {
                lemma_first_space_step(s@, i as int);
            }
            return Some(i);
        }
        i = i + 1;
    }
    proof {
        lemma_first_space_none(s@);
    }
    None
}

} // verus!
