//! Searching in text and blotting out a secret in it.

use vstd::prelude::*;
use vstd::std_specs::iter::IteratorSpec;
use vstd::string::*;

verus! {

/// `needle` stands in `hay` at position `at`.
pub open spec fn occurs_at(hay: Seq<char>, needle: Seq<char>, at: int) -> bool {
    &&& 0 <= at
    &&& at + needle.len() <= hay.len()
    &&& hay.subrange(at, at + needle.len()) == needle
}

/// `needle` stands somewhere in `hay`.
pub open spec fn holds(hay: Seq<char>, needle: Seq<char>) -> bool {
    exists|k: int| occurs_at(hay, needle, k)
}

/// What stands in place of a secret.
pub open spec fn marker() -> Seq<char> {
    "HIDDEN_KEY"@
}

/// The text from `at` on, with each occurrence of `pattern` replaced by
/// `with`: occurrences are taken from the left and do not overlap.
pub open spec fn replaced_from(text: Seq<char>, pattern: Seq<char>, with: Seq<char>, at: int) -> Seq<
    char,
>
    decreases text.len() - at,
{
    if at < 0 || at >= text.len() || pattern.len() == 0 {
        Seq::empty()
    } else if occurs_at(text, pattern, at) {
        with + replaced_from(text, pattern, with, at + pattern.len())
    } else {
        seq![text[at]] + replaced_from(text, pattern, with, at + 1)
    }
}

/// The text with each occurrence of `pattern` replaced by `with`. An empty
/// pattern occurs nowhere.
pub open spec fn replaced(text: Seq<char>, pattern: Seq<char>, with: Seq<char>) -> Seq<char> {
    if pattern.len() == 0 {
        text
    } else {
        replaced_from(text, pattern, with, 0)
    }
}

/// The text without the secret: each occurrence of `secret` is replaced by
/// the marker; where the secret still stands in what that gives, nothing of
/// the text is kept. An empty secret leaves the text as it is.
pub open spec fn redacted(text: Seq<char>, secret: Seq<char>) -> Seq<char> {
    if secret.len() == 0 {
        text
    } else if holds(replaced(text, secret, marker()), secret) {
        Seq::empty()
    } else {
        replaced(text, secret, marker())
    }
}

/// The characters of a text.
pub fn chars_of(text: &str) -> (r: Vec<char>)
    ensures
        r@ == text@,
{
    broadcast use group_string_axioms;

    let mut out: Vec<char> = Vec::new();
    let mut it = text.chars();
    let ghost mut seen: Seq<char> = Seq::empty();
    loop
        invariant
            out@ == seen,
            seen + it.remaining() == text@,
            it.obeys_prophetic_iter_laws(),
            it.decrease() is Some,
        decreases it.decrease()->0,
    {
        let ghost before = it;
        match it.next() {
            Some(c) => {
                proof {
                    assert(before.remaining().len() > 0);
                    assert(seen.push(c) + it.remaining() =~= seen + before.remaining());
                    seen = seen.push(c);
                }
                out.push(c);
            },
            None => {
                proof {
                    assert(before.remaining().len() == 0);
                    assert(seen + it.remaining() =~= seen);
                }
                return out;
            },
        }
    }
}

/// Whether `needle` stands in `hay` at position `at`.
pub fn starts_at(hay: &Vec<char>, needle: &Vec<char>, at: usize) -> (r: bool)
    ensures
        r == occurs_at(hay@, needle@, at as int),
{
    let m = needle.len();
    if at > hay.len() || m > hay.len() - at {
        return false;
    }
    let mut j: usize = 0;
    while j < m
        invariant
            j <= m,
            m == needle@.len(),
            at + m <= hay@.len(),
            hay@.len() <= usize::MAX,
            forall|k: int| 0 <= k < j ==> hay@[at + k] == needle@[k],
        decreases m - j,
    {
        if hay[at + j] != needle[j] {
            assert(hay@.subrange(at as int, at + m)[j as int] != needle@[j as int]);
            return false;
        }
        j = j + 1;
    }
    assert(hay@.subrange(at as int, at + m) =~= needle@);
    true
}

/// The first position at or behind `from` at which `needle` stands in `hay`.
pub fn find_from(hay: &Vec<char>, needle: &Vec<char>, from: usize) -> (r: Option<usize>)
    ensures
        match r {
            Some(k) => from <= k && occurs_at(hay@, needle@, k as int) && forall|j: int|
                from <= j < k ==> !occurs_at(hay@, needle@, j),
            None => forall|j: int| from <= j ==> !occurs_at(hay@, needle@, j),
        },
{
    if from > hay.len() {
        return None;
    }
    let mut i: usize = from;
    while i < hay.len()
        invariant
            from <= i <= hay@.len(),
            forall|j: int| from <= j < i ==> !occurs_at(hay@, needle@, j),
        decreases hay@.len() - i,
    {
        if starts_at(hay, needle, i) {
            return Some(i);
        }
        i = i + 1;
    }
    if starts_at(hay, needle, i) {
        Some(i)
    } else {
        None
    }
}

/// Replaces each occurrence of `pattern` in `text` by `with`. Occurrences
/// are taken from the left and do not overlap; with an empty pattern the
/// text stays as it is.
pub fn replace_all(text: &str, pattern: &str, with: &str) -> (r: String)
    ensures
        r@ == replaced(text@, pattern@, with@),
{
    if pattern.is_empty() {
        return String::from_str(text);
    }
    let hay = chars_of(text);
    let needle = chars_of(pattern);
    let n = hay.len();
    let m = needle.len();
    let mut out = String::new();
    let mut start: usize = 0;
    let mut i: usize = 0;
    assert(text@.subrange(0, 0) =~= Seq::<char>::empty());
    while i < n
        invariant
            start <= i <= n,
            n == text@.len(),
            m == pattern@.len(),
            m > 0,
            hay@ == text@,
            needle@ == pattern@,
            replaced_from(text@, pattern@, with@, 0) == out@ + text@.subrange(
                start as int,
                i as int,
            ) + replaced_from(text@, pattern@, with@, i as int),
        decreases n - i,
    {
        if starts_at(&hay, &needle, i) {
            let ghost before = out@;
            out.append(text.substring_char(start, i));
            out.append(with);
            assert(out@ + text@.subrange(i + m, i + m) + replaced_from(
                text@,
                pattern@,
                with@,
                i + m,
            ) =~= before + text@.subrange(start as int, i as int) + (with@ + replaced_from(
                text@,
                pattern@,
                with@,
                i + m,
            )));
            i = i + m;
            start = i;
        } else {
            assert(out@ + text@.subrange(start as int, i + 1) + replaced_from(
                text@,
                pattern@,
                with@,
                i + 1,
            ) =~= out@ + text@.subrange(start as int, i as int) + (seq![text@[i as int]]
                + replaced_from(text@, pattern@, with@, i + 1)));
            i = i + 1;
        }
    }
    out.append(text.substring_char(start, n));
    assert(replaced_from(text@, pattern@, with@, n as int) =~= Seq::<char>::empty());
    assert(out@ =~= replaced_from(text@, pattern@, with@, 0));
    out
}

/// Blots out a secret: each occurrence of `secret` in `text` gives way to
/// the marker `HIDDEN_KEY`. Occurrences are taken from the left and do not
/// overlap. Where the secret would still stand in the result, as it may
/// where it shares characters with the marker, the result is empty. With an
/// empty secret the text stays as it is.
///
/// A secret that is not empty stands nowhere in the result.
pub fn redact(text: &str, secret: &str) -> (r: String)
    ensures
        r@ == redacted(text@, secret@),
        secret@.len() > 0 ==> !holds(r@, secret@),
{
    let replaced = replace_all(text, secret, "HIDDEN_KEY");
    if secret.is_empty() {
        return replaced;
    }
    let hay = chars_of(replaced.as_str());
    let needle = chars_of(secret);
    match find_from(&hay, &needle, 0) {
        Some(_) => {
            let nothing = String::new();
            assert(!holds(nothing@, secret@));
            nothing
        },
        None => replaced,
    }
}

/// `c` is none of the characters of `with`.
pub open spec fn foreign_to(c: char, with: Seq<char>) -> bool {
    forall|j: int| 0 <= j < with.len() ==> c != #[trigger] with[j]
}

/// No character of `pattern` is a character of `with`.
pub open spec fn shares_no_character(pattern: Seq<char>, with: Seq<char>) -> bool {
    forall|i: int| 0 <= i < pattern.len() ==> foreign_to(#[trigger] pattern[i], with)
}

/// Where the text after replacement begins with `i` characters that are
/// foreign to `with`, these are the characters of the text itself, and the
/// pattern stands at none of their positions.
proof fn lemma_foreign_prefix(text: Seq<char>, pattern: Seq<char>, with: Seq<char>, at: int, i: nat)
    requires
        0 <= at <= text.len(),
        pattern.len() > 0,
        with.len() > 0,
        i <= replaced_from(text, pattern, with, at).len(),
        forall|j: int| 0 <= j < i ==> foreign_to(#[trigger] replaced_from(text, pattern, with, at)[j], with),
    ensures
        at + i <= text.len(),
        replaced_from(text, pattern, with, at).take(i as int) == text.subrange(at, at + i),
        forall|p: int| at <= p < at + i ==> !occurs_at(text, pattern, p),
    decreases i,
{
    let r = replaced_from(text, pattern, with, at);
    if i == 0 {
        assert(r.take(0) =~= text.subrange(at, at));
    } else {
        assert(at < text.len());
        if occurs_at(text, pattern, at) {
            assert(r[0] == with[0]);
            assert(foreign_to(r[0], with));
            assert(false);
        }
        let rest = replaced_from(text, pattern, with, at + 1);
        assert(r == seq![text[at]] + rest);
        assert forall|j: int| 0 <= j < i - 1 implies foreign_to(#[trigger] rest[j], with) by {
            assert(rest[j] == r[j + 1]);
        }
        lemma_foreign_prefix(text, pattern, with, at + 1, (i - 1) as nat);
        assert(r.take(i as int) =~= seq![text[at]] + rest.take(i - 1));
        assert(r.take(i as int) =~= text.subrange(at, at + i));
    }
}

/// After replacement the pattern stands nowhere, where it shares no
/// character with what replaced it.
proof fn lemma_replaced_holds_no_pattern(
    text: Seq<char>,
    pattern: Seq<char>,
    with: Seq<char>,
    at: int,
    k: int,
)
    requires
        0 <= at,
        pattern.len() > 0,
        with.len() > 0,
        shares_no_character(pattern, with),
    ensures
        !occurs_at(replaced_from(text, pattern, with, at), pattern, k),
    decreases text.len() - at,
{
    let r = replaced_from(text, pattern, with, at);
    let m = pattern.len() as int;
    if at >= text.len() {
        assert(r.len() == 0);
    } else if occurs_at(r, pattern, k) {
        assert(r.subrange(k, k + m) == pattern);
        assert forall|j: int| 0 <= j < m implies r[k + j] == pattern[j] by {
            assert(r.subrange(k, k + m)[j] == r[k + j]);
        }
        if occurs_at(text, pattern, at) {
            let rest = replaced_from(text, pattern, with, at + m);
            assert(r == with + rest);
            if k < with.len() {
                assert(r[k] == with[k]);
                assert(r[k + 0] == pattern[0]);
                assert(foreign_to(pattern[0], with));
                assert(false);
            } else {
                lemma_replaced_holds_no_pattern(text, pattern, with, at + m, k - with.len());
                assert(rest.subrange(k - with.len(), k - with.len() + m) =~= r.subrange(k, k + m));
                assert(false);
            }
        } else {
            let rest = replaced_from(text, pattern, with, at + 1);
            assert(r == seq![text[at]] + rest);
            if k == 0 {
                assert forall|j: int| 0 <= j < m implies foreign_to(#[trigger] r[j], with) by {
                    assert(r[0 + j] == pattern[j]);
                    assert(foreign_to(pattern[j], with));
                }
                lemma_foreign_prefix(text, pattern, with, at, m as nat);
                assert(r.take(m) =~= r.subrange(0, m));
                assert(text.subrange(at, at + m) == pattern);
                assert(false);
            } else {
                lemma_replaced_holds_no_pattern(text, pattern, with, at + 1, k - 1);
                assert(rest.subrange(k - 1, k - 1 + m) =~= r.subrange(k, k + m));
                assert(false);
            }
        }
    }
}

/// A secret that is not empty stands nowhere in the redacted text.
pub proof fn law_redacted_holds_no_secret(text: Seq<char>, secret: Seq<char>)
    requires
        secret.len() > 0,
    ensures
        !holds(redacted(text, secret), secret),
{
    assert(!holds(Seq::<char>::empty(), secret));
}

/// Where the secret holds none of the marker's characters, nothing but the
/// secret is lost: the redacted text is the text with each occurrence of
/// the secret replaced by the marker.
pub proof fn law_redacted_keeps_the_rest(text: Seq<char>, secret: Seq<char>)
    requires
        shares_no_character(secret, marker()),
    ensures
        redacted(text, secret) == replaced(text, secret, marker()),
{
    if secret.len() > 0 {
        reveal_strlit("HIDDEN_KEY");
        assert forall|k: int| !occurs_at(replaced(text, secret, marker()), secret, k) by {
            lemma_replaced_holds_no_pattern(text, secret, marker(), 0, k);
        }
    }
}

} // verus!
