//! Scanning text: single characters, white space, lines and braces.

use crate::text::{occurs_at, starts_at};
use vstd::prelude::*;

verus! {

/// The first position in `from..to` at which `c` stands; `to` if there is
/// none.
pub open spec fn index_of(s: Seq<char>, c: char, from: int, to: int) -> int
    decreases to - from,
{
    if from >= to {
        to
    } else if s[from] == c {
        from
    } else {
        index_of(s, c, from + 1, to)
    }
}

/// `k` is the first position at or behind `from` at which `needle` stands.
pub open spec fn is_first_occurrence(hay: Seq<char>, needle: Seq<char>, from: int, k: int) -> bool {
    &&& from <= k
    &&& occurs_at(hay, needle, k)
    &&& forall|j: int| from <= j < k ==> !occurs_at(hay, needle, j)
}

/// The first position at or behind `from` at which `needle` stands, if
/// there is one.
pub open spec fn first_occurrence(hay: Seq<char>, needle: Seq<char>, from: int) -> Option<int> {
    if exists|k: int| is_first_occurrence(hay, needle, from, k) {
        Some(choose|k: int| is_first_occurrence(hay, needle, from, k))
    } else {
        None
    }
}

/// White space, as Unicode has it.
pub open spec fn is_space(c: char) -> bool {
    let u = c as u32;
    ||| 0x09 <= u <= 0x0d
    ||| u == 0x20
    ||| u == 0x85
    ||| u == 0xa0
    ||| u == 0x1680
    ||| 0x2000 <= u <= 0x200a
    ||| u == 0x2028
    ||| u == 0x2029
    ||| u == 0x202f
    ||| u == 0x205f
    ||| u == 0x3000
}

/// The first position in `from..to` that holds no white space; `to` if all
/// is white space.
pub open spec fn skip_space(s: Seq<char>, from: int, to: int) -> int
    decreases to - from,
{
    if from >= to {
        to
    } else if !is_space(s[from]) {
        from
    } else {
        skip_space(s, from + 1, to)
    }
}

/// The position behind the last character of `from..to` that is no white
/// space; `from` if all is white space.
pub open spec fn drop_space(s: Seq<char>, from: int, to: int) -> int
    decreases to - from,
{
    if from >= to {
        from
    } else if !is_space(s[to - 1]) {
        to
    } else {
        drop_space(s, from, to - 1)
    }
}

/// The part `from..to` of `s` without the white space at its ends.
pub open spec fn trimmed_part(s: Seq<char>, from: int, to: int) -> Seq<char> {
    let a = skip_space(s, from, to);
    s.subrange(a, drop_space(s, a, to))
}

/// Where the line that begins at `start` stops: at its line feed, or at the
/// end of the text.
pub open spec fn line_stop(s: Seq<char>, start: int) -> int {
    index_of(s, '\n', start, s.len() as int)
}

/// Where the content of the line that begins at `start` ends: before its
/// line feed, and before a carriage return that stands right before that.
pub open spec fn line_end(s: Seq<char>, start: int) -> int {
    let stop = line_stop(s, start);
    if stop < s.len() && start < stop && s[stop - 1] == '\r' {
        stop - 1
    } else {
        stop
    }
}

/// The first line, of those that begin at or behind `start`, whose content
/// begins with `prefix`: where it begins and where its content ends.
pub open spec fn line_with_prefix(s: Seq<char>, prefix: Seq<char>, start: int) -> Option<(int, int)>
    decreases s.len() - start,
{
    if start < 0 || start >= s.len() {
        None
    } else if occurs_at(s, prefix, start) && start + prefix.len() <= line_end(s, start) {
        Some((start, line_end(s, start)))
    } else if line_stop(s, start) < start || line_stop(s, start) >= s.len() {
        None
    } else {
        line_with_prefix(s, prefix, line_stop(s, start) + 1)
    }
}

/// `needle` stands somewhere in the part `from..to` of `hay`.
pub open spec fn occurs_within(hay: Seq<char>, needle: Seq<char>, from: int, to: int) -> bool {
    exists|k: int| from <= k && k + needle.len() <= to && occurs_at(hay, needle, k)
}

/// The first line, of those that begin at or behind `start`, whose content
/// holds `needle`: where it begins and where its content ends.
pub open spec fn line_containing(s: Seq<char>, needle: Seq<char>, start: int) -> Option<(int, int)>
    decreases s.len() - start,
{
    if start < 0 || start >= s.len() {
        None
    } else if occurs_within(s, needle, start, line_end(s, start)) {
        Some((start, line_end(s, start)))
    } else if line_stop(s, start) < start || line_stop(s, start) >= s.len() {
        None
    } else {
        line_containing(s, needle, line_stop(s, start) + 1)
    }
}

/// The position behind the brace that closes the braces open at `at`, of
/// which there are `depth`; `None` where the text ends first.
pub open spec fn closing_from(s: Seq<char>, at: int, depth: nat) -> Option<int>
    decreases s.len() - at,
{
    if at < 0 || at >= s.len() {
        None
    } else if s[at] == '{' {
        closing_from(s, at + 1, depth + 1)
    } else if s[at] == '}' {
        if depth <= 1 {
            Some(at + 1)
        } else {
            closing_from(s, at + 1, (depth - 1) as nat)
        }
    } else {
        closing_from(s, at + 1, depth)
    }
}

/// The first occurrence is the only position that `is_first_occurrence`
/// holds of.
pub proof fn lemma_first_occurrence(hay: Seq<char>, needle: Seq<char>, from: int, k: int)
    requires
        is_first_occurrence(hay, needle, from, k),
    ensures
        first_occurrence(hay, needle, from) == Some(k),
{
    let c = choose|c: int| is_first_occurrence(hay, needle, from, c);
    assert(is_first_occurrence(hay, needle, from, c));
    if c < k {
        assert(!occurs_at(hay, needle, c));
    } else if k < c {
        assert(!occurs_at(hay, needle, k));
    }
}

/// Finds the first position in `from..to` at which `c` stands.
pub fn find_char(s: &Vec<char>, c: char, from: usize, to: usize) -> (r: usize)
    requires
        to <= s@.len(),
    ensures
        r == index_of(s@, c, from as int, to as int),
        from <= to ==> from <= r <= to,
        r < to ==> s@[r as int] == c,
{
    if from >= to {
        return to;
    }
    let mut i: usize = from;
    while i < to
        invariant
            from <= i <= to,
            to <= s@.len(),
            index_of(s@, c, from as int, to as int) == index_of(s@, c, i as int, to as int),
        decreases to - i,
    {
        if s[i] == c {
            return i;
        }
        i = i + 1;
    }
    to
}

/// Finds the first position at or behind `from` at which `needle` stands.
pub fn find_first(hay: &Vec<char>, needle: &Vec<char>, from: usize) -> (r: Option<usize>)
    ensures
        match r {
            Some(k) => first_occurrence(hay@, needle@, from as int) == Some(k as int)
                && k + needle@.len() <= hay@.len(),
            None => first_occurrence(hay@, needle@, from as int) is None,
        },
{
    match crate::text::find_from(hay, needle, from) {
        Some(k) => {
            proof {
                lemma_first_occurrence(hay@, needle@, from as int, k as int);
            }
            Some(k)
        },
        None => {
            assert forall|k: int| !is_first_occurrence(hay@, needle@, from as int, k) by {
                if from <= k {
                    assert(!occurs_at(hay@, needle@, k));
                }
            }
            None
        },
    }
}

/// Whether a character is white space.
pub fn is_whitespace(c: char) -> (r: bool)
    ensures
        r == is_space(c),
{
    let u = c as u32;
    (0x09 <= u && u <= 0x0d) || u == 0x20 || u == 0x85 || u == 0xa0 || u == 0x1680 || (0x2000 <= u
        && u <= 0x200a) || u == 0x2028 || u == 0x2029 || u == 0x202f || u == 0x205f || u == 0x3000
}

/// Finds the part of `from..to` that is left when the white space at its
/// ends is taken away.
pub fn trim_bounds(s: &Vec<char>, from: usize, to: usize) -> (r: (usize, usize))
    requires
        from <= to <= s@.len(),
    ensures
        r.0 == skip_space(s@, from as int, to as int),
        r.1 == drop_space(s@, r.0 as int, to as int),
        from <= r.0 <= r.1 <= to,
        s@.subrange(r.0 as int, r.1 as int) == trimmed_part(s@, from as int, to as int),
{
    let mut a: usize = from;
    while a < to && is_whitespace(s[a])
        invariant
            from <= a <= to,
            to <= s@.len(),
            skip_space(s@, from as int, to as int) == skip_space(s@, a as int, to as int),
        decreases to - a,
    {
        a = a + 1;
    }
    let mut b: usize = to;
    while a < b && is_whitespace(s[b - 1])
        invariant
            a <= b <= to,
            to <= s@.len(),
            drop_space(s@, a as int, to as int) == drop_space(s@, a as int, b as int),
        decreases b - a,
    {
        b = b - 1;
    }
    (a, b)
}

/// Finds where the content of the line that begins at `start` ends, and
/// where the line stops.
pub fn line_bounds(s: &Vec<char>, start: usize) -> (r: (usize, usize))
    requires
        start <= s@.len(),
    ensures
        r.0 == line_end(s@, start as int),
        r.1 == line_stop(s@, start as int),
        start <= r.0 <= r.1 <= s@.len(),
{
    let stop = find_char(s, '\n', start, s.len());
    if stop < s.len() && start < stop && s[stop - 1] == '\r' {
        (stop - 1, stop)
    } else {
        (stop, stop)
    }
}

/// Finds the first line whose content begins with `prefix`.
pub fn find_line_with_prefix(s: &Vec<char>, prefix: &Vec<char>) -> (r: Option<(usize, usize)>)
    ensures
        match r {
            Some((a, b)) => line_with_prefix(s@, prefix@, 0) == Some((a as int, b as int)) && a
                <= b <= s@.len(),
            None => line_with_prefix(s@, prefix@, 0) is None,
        },
{
    let n = s.len();
    let mut start: usize = 0;
    while start < n
        invariant
            start <= n,
            n == s@.len(),
            line_with_prefix(s@, prefix@, 0) == line_with_prefix(s@, prefix@, start as int),
        decreases n - start,
    {
        let (end, stop) = line_bounds(s, start);
        if starts_at(s, prefix, start) && prefix.len() <= end - start {
            return Some((start, end));
        }
        if stop >= n {
            return None;
        }
        start = stop + 1;
    }
    None
}

/// Whether `needle` stands somewhere in the part `from..to` of `hay`.
pub fn contains_within(hay: &Vec<char>, needle: &Vec<char>, from: usize, to: usize) -> (r: bool)
    requires
        from <= to <= hay@.len(),
    ensures
        r == occurs_within(hay@, needle@, from as int, to as int),
{
    match crate::text::find_from(hay, needle, from) {
        Some(k) => {
            if needle.len() <= to && k <= to - needle.len() {
                true
            } else {
                assert forall|j: int| !(from <= j && j + needle@.len() <= to && occurs_at(
                    hay@,
                    needle@,
                    j,
                )) by {
                    if from <= j && j + needle@.len() <= to {
                        assert(j < k);
                    }
                }
                false
            }
        },
        None => false,
    }
}

/// Finds the first line whose content holds `needle`.
pub fn find_line_containing(s: &Vec<char>, needle: &Vec<char>) -> (r: Option<(usize, usize)>)
    ensures
        match r {
            Some((a, b)) => line_containing(s@, needle@, 0) == Some((a as int, b as int)) && a
                <= b <= s@.len(),
            None => line_containing(s@, needle@, 0) is None,
        },
{
    let n = s.len();
    let mut start: usize = 0;
    while start < n
        invariant
            start <= n,
            n == s@.len(),
            line_containing(s@, needle@, 0) == line_containing(s@, needle@, start as int),
        decreases n - start,
    {
        let (end, stop) = line_bounds(s, start);
        if contains_within(s, needle, start, end) {
            return Some((start, end));
        }
        if stop >= n {
            return None;
        }
        start = stop + 1;
    }
    None
}

/// Finds the position behind the brace that closes the one at `open`.
pub fn find_closing(s: &Vec<char>, open: usize) -> (r: Option<usize>)
    ensures
        match r {
            Some(k) => closing_from(s@, open as int, 0) == Some(k as int) && open < k <= s@.len(),
            None => closing_from(s@, open as int, 0) is None,
        },
{
    let n = s.len();
    if open >= n {
        return None;
    }
    let mut depth: usize = 0;
    let mut i: usize = open;
    while i < n
        invariant
            open <= i <= n,
            n == s@.len(),
            depth <= i - open,
            closing_from(s@, open as int, 0) == closing_from(s@, i as int, depth as nat),
        decreases n - i,
    {
        let c = s[i];
        if c == '{' {
            depth = depth + 1;
        } else if c == '}' {
            if depth <= 1 {
                return Some(i + 1);
            }
            depth = depth - 1;
        }
        i = i + 1;
    }
    None
}

} // verus!
