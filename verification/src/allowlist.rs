//! The list of addresses that may sign up: one text, the addresses
//! separated by commas, each read without the white space around it.

use vstd::prelude::*;
use crate::unicode::{is_white_space, white_space};

verus! {

/// Whether `[i, j)` is one of the pieces into which the commas cut `list`:
/// it starts at the beginning or behind a comma, ends at the end or before
/// a comma, and holds no comma.
pub open spec fn is_segment(list: Seq<char>, i: int, j: int) -> bool {
    &&& 0 <= i <= j <= list.len()
    &&& i == 0 || list[i - 1] == ','
    &&& j == list.len() || list[j] == ','
    &&& forall|k: int| i <= k < j ==> list[k] != ','
}

/// A text without the white space at its start.
pub open spec fn without_leading_space(s: Seq<char>) -> Seq<char>
    decreases s.len(),
{
    if s.len() > 0 && white_space(s[0]) {
        without_leading_space(s.drop_first())
    } else {
        s
    }
}

/// A text without the white space at its end.
pub open spec fn without_trailing_space(s: Seq<char>) -> Seq<char>
    decreases s.len(),
{
    if s.len() > 0 && white_space(s.last()) {
        without_trailing_space(s.drop_last())
    } else {
        s
    }
}

/// A text without the white space at either end.
pub open spec fn trimmed(s: Seq<char>) -> Seq<char> {
    without_trailing_space(without_leading_space(s))
}

/// Whether `email` is on the list: one of the list's pieces, trimmed, is
/// exactly `email`.
pub open spec fn allow_listed(list: Seq<char>, email: Seq<char>) -> bool {
    exists|i: int, j: int| is_segment(list, i, j) && trimmed(#[trigger] list.subrange(i, j)) == email
}

/// The characters of a text.
pub fn chars_of(text: &str) -> (v: Vec<char>)
    ensures
        v@ == text@,
{
    let n = text.unicode_len();
    let mut v: Vec<char> = Vec::new();
    let mut i: usize = 0;
    while i < n
        invariant
            i <= n,
            n == text@.len(),
            v@ == text@.subrange(0, i as int),
        decreases n - i,
    {
        v.push(text.get_char(i));
        i += 1;
        assert(v@ =~= text@.subrange(0, i as int));
    }
    assert(text@.subrange(0, n as int) =~= text@);
    v
}

/// Where the piece `[i, j)` of `v` starts and ends once trimmed.
fn trimmed_range(v: &Vec<char>, i: usize, j: usize) -> (r: (usize, usize))
    requires
        i <= j <= v.len(),
    ensures
        i <= r.0 <= r.1 <= j,
        v@.subrange(r.0 as int, r.1 as int) == trimmed(v@.subrange(i as int, j as int)),
{
    let mut a: usize = i;
    while a < j && is_white_space(v[a])
        invariant
            i <= a <= j <= v.len(),
            without_leading_space(v@.subrange(i as int, j as int)) == without_leading_space(
                v@.subrange(a as int, j as int),
            ),
        decreases j - a,
    {
        assert(v@.subrange(a as int, j as int).drop_first() =~= v@.subrange(a + 1, j as int));
        a += 1;
    }
    assert(without_leading_space(v@.subrange(a as int, j as int)) == v@.subrange(
        a as int,
        j as int,
    ));
    let mut b: usize = j;
    while b > a && is_white_space(v[b - 1])
        invariant
            a <= b <= j <= v.len(),
            without_trailing_space(v@.subrange(a as int, j as int)) == without_trailing_space(
                v@.subrange(a as int, b as int),
            ),
        decreases b - a,
    {
        assert(v@.subrange(a as int, b as int).drop_last() =~= v@.subrange(a as int, b - 1));
        b -= 1;
    }
    assert(without_trailing_space(v@.subrange(a as int, b as int)) == v@.subrange(
        a as int,
        b as int,
    ));
    (a, b)
}

/// Whether the piece `[a, b)` of `v` is exactly `w`.
fn range_equals(v: &Vec<char>, a: usize, b: usize, w: &Vec<char>) -> (same: bool)
    requires
        a <= b <= v.len(),
    ensures
        same == (v@.subrange(a as int, b as int) == w@),
{
    if b - a != w.len() {
        return false;
    }
    let mut k: usize = 0;
    while k < w.len()
        invariant
            a <= b <= v.len(),
            b - a == w.len(),
            k <= w.len(),
            forall|m: int| 0 <= m < k ==> v@[a + m] == w@[m],
        decreases w.len() - k,
    {
        if v[a + k] != w[k] {
            assert(v@.subrange(a as int, b as int)[k as int] != w@[k as int]);
            return false;
        }
        k += 1;
    }
    assert(v@.subrange(a as int, b as int) =~= w@);
    true
}

/// Whether `email` is on the list `list`.
pub fn is_allow_listed(list: &str, email: &str) -> (listed: bool)
    ensures
        listed == allow_listed(list@, email@),
{
    let v = chars_of(list);
    let w = chars_of(email);
    let mut start: usize = 0;
    let mut pos: usize = 0;
    let mut listed: bool = false;
    loop
        invariant
            start <= pos <= v.len(),
            v@ == list@,
            w@ == email@,
            start == 0 || v@[start - 1] == ',',
            forall|k: int| start <= k < pos ==> v@[k] != ',',
            forall|i: int, j: int|
                is_segment(v@, i, j) && j < start ==> trimmed(#[trigger] v@.subrange(i, j)) != w@,
        ensures
            listed == allow_listed(list@, email@),
        decreases v.len() - pos,
    {
        if pos == v.len() || v[pos] == ',' {
            assert(is_segment(v@, start as int, pos as int));
            let (a, b) = trimmed_range(&v, start, pos);
            if range_equals(&v, a, b, &w) {
                listed = true;
                break;
            }
            assert forall|i: int, j: int| is_segment(v@, i, j) && j <= pos implies trimmed(
                #[trigger] v@.subrange(i, j),
            ) != w@ by {
                if j >= start {
                    assert(j == pos);
                    if i < start {
                        assert(v@[start - 1] == ',');
                    } else if i > start {
                        assert(v@[i - 1] == ',');
                    }
                    assert(i == start);
                }
            }
            if pos == v.len() {
                listed = false;
                break;
            }
            pos += 1;
            start = pos;
        } else {
            pos += 1;
        }
    }
    listed
}

} // verus!
