//! Small text operations with exact contracts over the character view.

use vstd::prelude::*;

verus! {

/// An owned copy of a text.
pub fn owned(text: &str) -> (copy: String)
    ensures
        copy@ == text@,
{
    String::from_str(text)
}

/// The concatenation of two texts.
pub fn joined(first: &str, second: &str) -> (both: String)
    ensures
        both@ == first@ + second@,
{
    String::from_str(first).concat(second)
}

/// The concatenation of three texts.
pub fn joined3(first: &str, second: &str, third: &str) -> (all: String)
    ensures
        all@ == first@ + second@ + third@,
{
    String::from_str(first).concat(second).concat(third)
}

/// Whether two texts hold the same characters.
pub fn same_text(first: &str, second: &str) -> (same: bool)
    ensures
        same == (first@ == second@),
{
    let a = String::from_str(first);
    let b = String::from_str(second);
    a == b
}

/// The characters of a text, in order.
pub fn characters(text: &str) -> (chars: Vec<char>)
    ensures
        chars@ == text@,
{
    broadcast use vstd::string::group_string_axioms;
    let mut chars: Vec<char> = Vec::new();
    for c in iter: text.chars()
        invariant
            chars@ == iter.seq().take(iter.index() as int),
            iter.seq() == text@,
    {
        chars.push(c);
    }
    chars
}

/// Two characters are equal once ASCII upper-case letters are lowered.
pub open spec fn chars_match_ignoring_ascii_case(a: char, b: char) -> bool {
    let x = a as u32;
    let y = b as u32;
    ||| x == y
    ||| 65 <= x <= 90 && x + 32 == y
    ||| 65 <= y <= 90 && y + 32 == x
}

/// Two texts are equal once ASCII upper-case letters are lowered.
pub open spec fn same_ignoring_ascii_case(a: Seq<char>, b: Seq<char>) -> bool {
    &&& a.len() == b.len()
    &&& forall|i: int| 0 <= i < a.len() ==> #[trigger] chars_match_ignoring_ascii_case(a[i], b[i])
}

/// Whether two characters are equal once ASCII upper-case letters are lowered.
pub fn char_matches_ignoring_ascii_case(a: char, b: char) -> (same: bool)
    ensures
        same == chars_match_ignoring_ascii_case(a, b),
{
    let x = a as u32;
    let y = b as u32;
    x == y || (65 <= x && x <= 90 && x + 32 == y) || (65 <= y && y <= 90 && y + 32 == x)
}

/// Whether the characters `chars[start..end]` equal `key` once ASCII
/// upper-case letters are lowered.
pub fn range_matches_ignoring_ascii_case(chars: &Vec<char>, start: usize, end: usize, key: &Vec<char>) -> (same: bool)
    requires
        start <= end <= chars@.len(),
    ensures
        same == same_ignoring_ascii_case(chars@.subrange(start as int, end as int), key@),
{
    if end - start != key.len() {
        return false;
    }
    let mut i: usize = 0;
    while i < key.len()
        invariant
            start <= end <= chars@.len(),
            end - start == key@.len(),
            i <= key@.len(),
            forall|j: int| 0 <= j < i ==> #[trigger] chars_match_ignoring_ascii_case(chars@[start + j], key@[j]),
        decreases key.len() - i,
    {
        if !char_matches_ignoring_ascii_case(chars[start + i], key[i]) {
            assert(!chars_match_ignoring_ascii_case(chars@.subrange(start as int, end as int)[i as int], key@[i as int]));
            return false;
        }
        i = i + 1;
    }
    assert forall|j: int| 0 <= j < key@.len() implies #[trigger] chars_match_ignoring_ascii_case(chars@.subrange(start as int, end as int)[j], key@[j]) by {
        assert(chars@.subrange(start as int, end as int)[j] == chars@[start + j]);
    }
    true
}

/// Whether two texts are equal once ASCII upper-case letters are lowered.
pub fn same_text_ignoring_ascii_case(a: &str, b: &str) -> (same: bool)
    ensures
        same == same_ignoring_ascii_case(a@, b@),
{
    let a_chars = characters(a);
    let b_chars = characters(b);
    let same = range_matches_ignoring_ascii_case(&a_chars, 0, a_chars.len(), &b_chars);
    assert(a_chars@.subrange(0, a_chars@.len() as int) =~= a_chars@);
    same
}

/// The text without the trailing run of `c`.
pub open spec fn trim_trailing(text: Seq<char>, c: char) -> Seq<char>
    decreases text.len(),
{
    if text.len() > 0 && text.last() == c {
        trim_trailing(text.drop_last(), c)
    } else {
        text
    }
}

/// The text without the trailing run of `c`, as `trim_end_matches` gives it.
pub fn trimmed_end(text: &str, c: char) -> (trimmed: String)
    ensures
        trimmed@ == trim_trailing(text@, c),
{
    let chars = characters(text);
    let mut end: usize = chars.len();
    assert(text@.take(end as int) =~= text@);
    while end > 0 && chars[end - 1] == c
        invariant
            end <= chars@.len(),
            chars@ == text@,
            trim_trailing(text@, c) == trim_trailing(text@.take(end as int), c),
        decreases end,
    {
        assert(text@.take(end as int).drop_last() =~= text@.take(end - 1));
        end = end - 1;
    }
    assert(trim_trailing(text@.take(end as int), c) == text@.take(end as int));
    let kept = text.substring_char(0, end);
    assert(kept@ =~= text@.take(end as int));
    String::from_str(kept)
}

/// The first position of `c` in the text.
pub open spec fn first_index(text: Seq<char>, c: char) -> Option<int>
    decreases text.len(),
{
    if text.len() == 0 {
        None
    } else if text[0] == c {
        Some(0)
    } else {
        match first_index(text.drop_first(), c) {
            Some(i) => Some(i + 1),
            None => None,
        }
    }
}

/// Skipping a prefix that does not hold `c` shifts its first position.
pub proof fn lemma_first_index_after(text: Seq<char>, c: char, n: int)
    requires
        0 <= n <= text.len(),
        forall|j: int| 0 <= j < n ==> text[j] != c,
    ensures
        first_index(text, c) == (match first_index(text.skip(n), c) {
            Some(i) => Some(i + n),
            None => None::<int>,
        }),
    decreases n,
{
    if n > 0 {
        lemma_first_index_after(text.drop_first(), c, n - 1);
        assert(text.drop_first().skip(n - 1) =~= text.skip(n));
    } else {
        assert(text.skip(0) =~= text);
    }
}

/// The text starts with the prefix.
pub open spec fn has_prefix(text: Seq<char>, prefix: Seq<char>) -> bool {
    prefix.len() <= text.len() && text.take(prefix.len() as int) == prefix
}

/// The rest of the text after the prefix, when it starts with it.
pub fn strip_prefix<'a>(text: &'a str, prefix: &str) -> (rest: Option<&'a str>)
    ensures
        has_prefix(text@, prefix@) ==> (rest matches Some(r) && r@ == text@.skip(prefix@.len() as int)),
        !has_prefix(text@, prefix@) ==> rest is None,
{
    let text_chars = characters(text);
    let prefix_chars = characters(prefix);
    if prefix_chars.len() > text_chars.len() {
        return None;
    }
    let mut i: usize = 0;
    while i < prefix_chars.len()
        invariant
            text_chars@ == text@,
            prefix_chars@ == prefix@,
            prefix@.len() <= text@.len(),
            i <= prefix@.len(),
            forall|j: int| 0 <= j < i ==> text@[j] == prefix@[j],
        decreases prefix_chars.len() - i,
    {
        if text_chars[i] != prefix_chars[i] {
            assert(text@.take(prefix@.len() as int)[i as int] != prefix@[i as int]);
            return None;
        }
        i = i + 1;
    }
    assert(text@.take(prefix@.len() as int) =~= prefix@);
    let rest = text.substring_char(prefix_chars.len(), text_chars.len());
    assert(rest@ =~= text@.skip(prefix@.len() as int));
    Some(rest)
}

} // verus!
