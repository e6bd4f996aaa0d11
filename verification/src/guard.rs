//! Which interface descriptions are handed to the loader.
//!
//! The loader reads the type of a parameter by counting characters and
//! slicing at the count, and takes the lengths of fixed arrays and of
//! `bytesN` as they are written. A description is handed on only where no
//! text in it can lead such a step out of range: the description is ASCII
//! without escapes, and each of its quoted texts has its brackets paired as
//! the reader expects, at most thirty-two of them behind one type, and keeps
//! its lengths between one and ten thousand.
//! A tuple without components is not handed on either: an array of such
//! tuples is read as often as the payload says, whatever the payload holds.

use crate::text::chars_of;
use vstd::prelude::*;

verus! {

/// What a length is written with: digits, and a plus sign.
pub open spec fn is_length_char(c: char) -> bool {
    c == '+' || ('0' <= c && c <= '9')
}

/// A digit other than zero.
pub open spec fn is_nonzero_digit(c: char) -> bool {
    '1' <= c && c <= '9'
}

/// The part `a..b` of `s` is no length that leads the reader astray: it is
/// empty; or it holds a character that no length is written with, and so is
/// no length; or it has at most four characters and a digit other than zero
/// among them, and so lies between one and ten thousand.
pub open spec fn bounded_length(s: Seq<char>, a: int, b: int) -> bool {
    ||| a >= b
    ||| exists|i: int| a <= i < b && !is_length_char(#[trigger] s[i])
    ||| b - a <= 4 && exists|i: int| a <= i < b && is_nonzero_digit(#[trigger] s[i])
}

/// The position of the last `[` in `from..end`; `from - 1` if there is none.
pub open spec fn last_open(s: Seq<char>, from: int, end: int) -> int
    decreases end - from,
{
    if end <= from {
        from - 1
    } else if s[end - 1] == '[' {
        end - 1
    } else {
        last_open(s, from, end - 1)
    }
}

/// The part `from..from + 5` of `s` is the word `bytes`.
pub open spec fn begins_with_bytes(s: Seq<char>, from: int, to: int) -> bool {
    &&& to - from >= 5
    &&& s[from] == 'b'
    &&& s[from + 1] == 'y'
    &&& s[from + 2] == 't'
    &&& s[from + 3] == 'e'
    &&& s[from + 4] == 's'
}

/// How many array brackets a type may end in.
pub open spec fn most_brackets() -> int {
    32
}

/// The part `from..to` of `s` can be read as a type that ends in at most
/// `room` array brackets: as long as it ends in `]`, a `[` stands before
/// that, with a bounded length between the two, and what stands before the
/// `[` can be read as a type; and what follows `bytes` at its beginning is a
/// bounded length.
pub open spec fn readable_type(s: Seq<char>, from: int, to: int, room: int) -> bool
    decreases to - from,
{
    if to > from && s[to - 1] == ']' {
        let open = last_open(s, from, to - 1);
        &&& room > 0
        &&& from <= open < to
        &&& bounded_length(s, open + 1, to - 1)
        &&& readable_type(s, from, open, room - 1)
    } else {
        begins_with_bytes(s, from, to) ==> bounded_length(s, from + 5, to)
    }
}

/// The part `from..to` of `s` is safe as a quoted text: it does not begin
/// with `(`, and it can be read as a type.
pub open spec fn safe_text(s: Seq<char>, from: int, to: int) -> bool {
    !(to > from && s[from] == '(') && readable_type(s, from, to, most_brackets())
}

/// The part `from..to` of `s` is the word `components`.
pub open spec fn is_components(s: Seq<char>, from: int, to: int) -> bool {
    &&& to - from == 10
    &&& s[from] == 'c'
    &&& s[from + 1] == 'o'
    &&& s[from + 2] == 'm'
    &&& s[from + 3] == 'p'
    &&& s[from + 4] == 'o'
    &&& s[from + 5] == 'n'
    &&& s[from + 6] == 'e'
    &&& s[from + 7] == 'n'
    &&& s[from + 8] == 't'
    &&& s[from + 9] == 's'
}

/// The white space of JSON.
pub open spec fn is_json_space(c: char) -> bool {
    c == ' ' || c == '\t' || c == '\n' || c == '\r'
}

/// How far an empty list of components has come, after `c`: 1 behind the
/// quoted word `components`, 2 behind its colon, 3 behind the opening
/// bracket; 0 where nothing of it stands.
pub open spec fn next_stage(stage: int, c: char) -> int {
    if stage == 1 && c == ':' {
        2
    } else if stage == 2 && c == '[' {
        3
    } else {
        0
    }
}

/// From `at` on, every quoted text of `s` is safe, and no list of
/// components is empty. `open` is where the quoted text began that `at`
/// stands in, or negative outside of quotes; `stage` says how far an empty
/// list of components has come.
pub open spec fn quoted_texts_safe(s: Seq<char>, at: int, open: int, stage: int) -> bool
    decreases s.len() - at,
{
    if at < 0 || at >= s.len() {
        true
    } else if s[at] == '"' {
        if open < 0 {
            quoted_texts_safe(s, at + 1, at + 1, 0)
        } else {
            safe_text(s, open, at) && quoted_texts_safe(
                s,
                at + 1,
                -1,
                if is_components(s, open, at) {
                    1
                } else {
                    0
                },
            )
        }
    } else if open >= 0 || is_json_space(s[at]) {
        quoted_texts_safe(s, at + 1, open, stage)
    } else if stage == 3 && s[at] == ']' {
        false
    } else {
        quoted_texts_safe(s, at + 1, open, next_stage(stage, s[at]))
    }
}

/// Every character is ASCII, and none is a backslash: a quoted text is what
/// stands between its quotes.
pub open spec fn plain(s: Seq<char>) -> bool {
    forall|i: int| 0 <= i < s.len() ==> (#[trigger] s[i]) as u32 <= 0x7f && s[i] != '\\'
}

/// The description is handed to the loader.
pub open spec fn safe_description(s: Seq<char>) -> bool {
    plain(s) && quoted_texts_safe(s, 0, -1, 0)
}

/// Whether the part `a..b` of `s`, read as a length, stays bounded.
fn has_bounded_length(s: &Vec<char>, a: usize, b: usize) -> (r: bool)
    requires
        a <= b <= s@.len(),
    ensures
        r == bounded_length(s@, a as int, b as int),
{
    if a >= b {
        return true;
    }
    let mut nonzero = false;
    let mut i: usize = a;
    while i < b
        invariant
            a <= i <= b <= s@.len(),
            forall|j: int| a <= j < i ==> is_length_char(#[trigger] s@[j]),
            nonzero <==> exists|j: int| a <= j < i && is_nonzero_digit(#[trigger] s@[j]),
        decreases b - i,
    {
        let c = s[i];
        if !(c == '+' || ('0' <= c && c <= '9')) {
            return true;
        }
        if '1' <= c && c <= '9' {
            nonzero = true;
        }
        i = i + 1;
    }
    b - a <= 4 && nonzero
}

/// Finds the last `[` in `from..end`.
fn find_last_open(s: &Vec<char>, from: usize, end: usize) -> (r: Option<usize>)
    requires
        from <= end <= s@.len(),
    ensures
        match r {
            Some(k) => last_open(s@, from as int, end as int) == k && from <= k < end,
            None => last_open(s@, from as int, end as int) == from - 1,
        },
{
    let mut k: usize = end;
    while k > from
        invariant
            from <= k <= end <= s@.len(),
            last_open(s@, from as int, end as int) == last_open(s@, from as int, k as int),
        decreases k - from,
    {
        if s[k - 1] == '[' {
            return Some(k - 1);
        }
        k = k - 1;
    }
    None
}

/// Whether the part `from..to` of `s` is safe as a quoted text.
fn is_safe_text(s: &Vec<char>, from: usize, to: usize) -> (r: bool)
    requires
        from <= to <= s@.len(),
    ensures
        r == safe_text(s@, from as int, to as int),
{
    if to > from && s[from] == '(' {
        return false;
    }
    let mut end: usize = to;
    let mut room: u8 = 32;
    while end > from && s[end - 1] == ']'
        invariant
            from <= end <= to <= s@.len(),
            room <= 32,
            readable_type(s@, from as int, to as int, most_brackets()) == readable_type(
                s@,
                from as int,
                end as int,
                room as int,
            ),
        decreases end - from,
    {
        if room == 0 {
            return false;
        }
        match find_last_open(s, from, end - 1) {
            None => {
                return false;
            },
            Some(open) => {
                if !has_bounded_length(s, open + 1, end - 1) {
                    return false;
                }
                end = open;
                room = room - 1;
            },
        }
    }
    if end - from >= 5 && s[from] == 'b' && s[from + 1] == 'y' && s[from + 2] == 't' && s[from + 3]
        == 'e' && s[from + 4] == 's' {
        has_bounded_length(s, from + 5, end)
    } else {
        true
    }
}

/// Whether a description is handed to the loader: it is ASCII without a
/// backslash, each of its quoted texts is safe, and no list of components
/// is empty.
pub fn is_safe_description(text: &str) -> (r: bool)
    ensures
        r == safe_description(text@),
{
    let s = chars_of(text);
    let n = s.len();
    let mut i: usize = 0;
    while i < n
        invariant
            i <= n,
            n == s@.len(),
            s@ == text@,
            forall|j: int| 0 <= j < i ==> (#[trigger] s@[j]) as u32 <= 0x7f && s@[j] != '\\',
        decreases n - i,
    {
        let c = s[i];
        if c as u32 > 0x7f || c == '\\' {
            assert(!(s@[i as int] as u32 <= 0x7f && s@[i as int] != '\\'));
            return false;
        }
        i = i + 1;
    }
    let mut at: usize = 0;
    let mut open: Option<usize> = None;
    let mut stage: u8 = 0;
    while at < n
        invariant
            at <= n,
            n == s@.len(),
            s@ == text@,
            plain(s@),
            open matches Some(o) ==> o <= at,
            stage <= 3,
            quoted_texts_safe(s@, 0, -1, 0) == quoted_texts_safe(
                s@,
                at as int,
                match open {
                    Some(o) => o as int,
                    None => -1,
                },
                stage as int,
            ),
        decreases n - at,
    {
        let c = s[at];
        if c == '"' {
            match open {
                None => {
                    open = Some(at + 1);
                    stage = 0;
                },
                Some(o) => {
                    if !is_safe_text(&s, o, at) {
                        assert(!quoted_texts_safe(s@, at as int, o as int, stage as int));
                        return false;
                    }
                    stage = if spells_components(&s, o, at) {
                        1
                    } else {
                        0
                    };
                    open = None;
                },
            }
        } else if open.is_none() && !(c == ' ' || c == '\t' || c == '\n' || c == '\r') {
            if stage == 3 && c == ']' {
                assert(!quoted_texts_safe(s@, at as int, -1, stage as int));
                return false;
            }
            stage = if stage == 1 && c == ':' {
                2
            } else if stage == 2 && c == '[' {
                3
            } else {
                0
            };
        }
        at = at + 1;
    }
    true
}

/// Whether the part `from..to` of `s` is the word `components`.
fn spells_components(s: &Vec<char>, from: usize, to: usize) -> (r: bool)
    requires
        from <= to <= s@.len(),
    ensures
        r == is_components(s@, from as int, to as int),
{
    to - from == 10 && s[from] == 'c' && s[from + 1] == 'o' && s[from + 2] == 'm' && s[from + 3]
        == 'p' && s[from + 4] == 'o' && s[from + 5] == 'n' && s[from + 6] == 'e' && s[from + 7]
        == 'n' && s[from + 8] == 't' && s[from + 9] == 's'
}

} // verus!
