//! Text operations that the emitters are built from: replacing a character,
//! and stripping characters from the ends of a text.

use vstd::prelude::*;
use vstd::std_specs::iter::IteratorSpec;

verus! {

/// Whether `c` has the Unicode property `White_Space`.
pub uninterp spec fn is_whitespace(c: char) -> bool;

/// `char::is_whitespace` of the standard library: whether the character has the
/// Unicode property `White_Space`. The answer depends on the character alone.
pub assume_specification[ char::is_whitespace ](c: char) -> (b: bool)
    ensures
        b == is_whitespace(c),
;

/// `String::push` of the standard library: appends one character to the end of
/// the string and leaves the rest as it was.
pub assume_specification[ String::push ](s: &mut String, ch: char)
    ensures
        final(s)@ == old(s)@.push(ch),
;

/// The characters that are stripped from an end of a text.
#[derive(Debug, PartialEq, Eq, Clone, Copy)]
pub enum Strip {
    /// Every whitespace character.
    Whitespace,
    /// One given character.
    Char(char),
}

impl Strip {
    /// Whether `c` is one of the characters to strip.
    pub open spec fn matches(self, c: char) -> bool {
        match self {
            Strip::Whitespace => is_whitespace(c),
            Strip::Char(d) => c == d,
        }
    }

    /// Tests whether `c` is one of the characters to strip.
    pub fn test(&self, c: char) -> (b: bool)
        ensures
            b == self.matches(c),
    {
        match self {
            Strip::Whitespace => c.is_whitespace(),
            Strip::Char(d) => c == *d,
        }
    }
}

/// `text` with every occurrence of `from` replaced by `to`.
pub open spec fn replaced(text: Seq<char>, from: char, to: Seq<char>) -> Seq<char>
    decreases text.len(),
{
    if text.len() == 0 {
        text
    } else if text.last() == from {
        replaced(text.drop_last(), from, to) + to
    } else {
        replaced(text.drop_last(), from, to).push(text.last())
    }
}

/// `text` without the characters at its start that `strip` matches.
pub open spec fn stripped_start(text: Seq<char>, strip: Strip) -> Seq<char>
    decreases text.len(),
{
    if text.len() > 0 && strip.matches(text.first()) {
        stripped_start(text.drop_first(), strip)
    } else {
        text
    }
}

/// `text` without the characters at its end that `strip` matches.
pub open spec fn stripped_end(text: Seq<char>, strip: Strip) -> Seq<char>
    decreases text.len(),
{
    if text.len() > 0 && strip.matches(text.last()) {
        stripped_end(text.drop_last(), strip)
    } else {
        text
    }
}

/// `text` without leading and trailing whitespace.
pub open spec fn trimmed(text: Seq<char>) -> Seq<char> {
    stripped_end(stripped_start(text, Strip::Whitespace), Strip::Whitespace)
}

/// `text` without trailing whitespace.
pub open spec fn trimmed_end(text: Seq<char>) -> Seq<char> {
    stripped_end(text, Strip::Whitespace)
}

/// `text` without the run of `c` at its end.
pub open spec fn without_trailing(text: Seq<char>, c: char) -> Seq<char> {
    stripped_end(text, Strip::Char(c))
}

/// Where the first `start` characters all match and the next one does not,
/// stripping the start leaves what follows them.
pub proof fn lemma_stripped_start(text: Seq<char>, strip: Strip, start: int)
    requires
        0 <= start <= text.len(),
        forall|i: int| 0 <= i < start ==> strip.matches(text[i]),
        start < text.len() ==> !strip.matches(text[start]),
    ensures
        stripped_start(text, strip) == text.skip(start),
    decreases start,
{
    if start == 0 {
        assert(text.skip(0) =~= text);
    } else {
        let rest = text.drop_first();
        assert forall|i: int| 0 <= i < start - 1 implies strip.matches(rest[i]) by {
            assert(rest[i] == text[i + 1]);
        }
        lemma_stripped_start(rest, strip, start - 1);
        assert(rest.skip(start - 1) =~= text.skip(start));
    }
}

/// Where the characters from `end` on all match and the one before does not,
/// stripping the end leaves what stands before them.
pub proof fn lemma_stripped_end(text: Seq<char>, strip: Strip, end: int)
    requires
        0 <= end <= text.len(),
        forall|i: int| end <= i < text.len() ==> strip.matches(text[i]),
        0 < end ==> !strip.matches(text[end - 1]),
    ensures
        stripped_end(text, strip) == text.take(end),
    decreases text.len() - end,
{
    if end == text.len() {
        assert(text.take(end) =~= text);
    } else {
        let rest = text.drop_last();
        lemma_stripped_end(rest, strip, end);
        assert(rest.take(end) =~= text.take(end));
    }
}

/// Replaces every occurrence of `from` in `text` by `to`.
pub fn replace(text: &str, from: char, to: &str) -> (result: String)
    ensures
        result@ == replaced(text@, from, to@),
{
    let mut result = String::new();
    for c in chars: text.chars()
        invariant
            chars.seq() == text@,
            result@ == replaced(text@.take(chars.index()), from, to@),
    {
        assert(text@.take(chars.index() + 1).drop_last() =~= text@.take(chars.index()));
        if c == from {
            result.append(to);
        } else {
            result.push(c);
        }
    }
    assert(text@.take(text@.len() as int) =~= text@);
    result
}

/// The bounds of what is left of `text` when the characters that `start`
/// matches are stripped from its start and then those that `end` matches
/// from its end.
fn bounds(text: &str, start: Option<Strip>, end: Strip) -> (found: (usize, usize))
    ensures
        found.0 <= found.1 <= text@.len(),
        text@.subrange(found.0 as int, found.1 as int) == stripped_end(
            match start {
                Some(strip) => stripped_start(text@, strip),
                None => text@,
            },
            end,
        ),
{
    // The count of characters fits a `usize`, so the positions below do too.
    let len = text.unicode_len();
    let mut first: usize = 0;
    let mut last: usize = 0;
    let mut inside = start.is_none();
    let mut n: usize = 0;
    for c in chars: text.chars()
        invariant
            chars.seq() == text@,
            len == text@.len(),
            n == chars.index(),
            first <= last <= n,
            start is None ==> inside && first == 0,
            !inside ==> first == 0 && last == 0,
            !inside ==> forall|i: int| 0 <= i < n ==> start->0.matches(text@[i]),
            inside && start is Some ==> first < n && !start->0.matches(text@[first as int]),
            inside && start is Some ==> forall|i: int| 0 <= i < first ==> start->0.matches(text@[i]),
            inside ==> forall|i: int| last <= i < n ==> end.matches(text@[i]),
            last > first ==> !end.matches(text@[last - 1]),
    {
        if !inside {
            let strip = start.unwrap();
            if !strip.test(c) {
                inside = true;
                first = n;
                last = n;
            }
        }
        if inside && !end.test(c) {
            last = n + 1;
        }
        n = n + 1;
    }
    proof {
        let whole = text@;
        match start {
            Some(strip) => {
                if inside {
                    lemma_stripped_start(whole, strip, first as int);
                    let rest = whole.skip(first as int);
                    assert forall|i: int| last - first <= i < rest.len() implies end.matches(rest[i]) by {
                        assert(rest[i] == whole[i + first]);
                    }
                    lemma_stripped_end(rest, end, last - first);
                    assert(rest.take(last - first) =~= whole.subrange(first as int, last as int));
                } else {
                    lemma_stripped_start(whole, strip, whole.len() as int);
                    assert(whole.skip(whole.len() as int) =~= whole.subrange(0, 0));
                }
            },
            None => {
                lemma_stripped_end(whole, end, last as int);
                assert(whole.take(last as int) =~= whole.subrange(0, last as int));
            },
        }
    }
    (first, last)
}

/// `text` without leading and trailing whitespace.
pub fn trim(text: &str) -> (result: &str)
    ensures
        result@ == trimmed(text@),
{
    let (first, last) = bounds(text, Some(Strip::Whitespace), Strip::Whitespace);
    text.substring_char(first, last)
}

/// `text` without trailing whitespace.
pub fn trim_end(text: &str) -> (result: &str)
    ensures
        result@ == trimmed_end(text@),
{
    let (first, last) = bounds(text, None, Strip::Whitespace);
    text.substring_char(first, last)
}

/// `text` without the run of `c` at its end.
pub fn trim_end_matches(text: &str, c: char) -> (result: &str)
    ensures
        result@ == without_trailing(text@, c),
{
    let (first, last) = bounds(text, None, Strip::Char(c));
    text.substring_char(first, last)
}

/// Whether two texts hold the same characters.
pub fn same_text(a: &str, b: &str) -> (same: bool)
    ensures
        same == (a@ == b@),
{
    let mut left = a.chars();
    let mut right = b.chars();
    let ghost mut common: Seq<char> = Seq::empty();
    loop
        invariant
            a@ == common + left.remaining(),
            b@ == common + right.remaining(),
            left.decrease() is Some,
        decreases left.decrease()->0,
    {
        let x = left.next();
        let y = right.next();
        match (x, y) {
            (None, None) => {
                return true;
            },
            (Some(c), Some(d)) => {
                if c != d {
                    proof {
                        assert(a@[common.len() as int] == c);
                        assert(b@[common.len() as int] == d);
                    }
                    return false;
                }
                proof {
                    common = common.push(c);
                }
                assert(a@ =~= common + left.remaining());
                assert(b@ =~= common + right.remaining());
            },
            _ => {
                assert(a@.len() != b@.len());
                return false;
            },
        }
    }
}

} // verus!
