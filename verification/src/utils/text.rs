//! Texts: comparing, trimming, joining.

use vstd::prelude::*;
use vstd::string::StringExecFns;

verus! {

/// `str`'s equality compares the two texts character by character.
pub assume_specification[ <str as PartialEq>::eq ](a: &str, b: &str) -> (same: bool)
    ensures
        same == (a@ == b@),
;

/// Whether `char::is_whitespace` holds of a character: whether it has the
/// Unicode property White_Space.
pub uninterp spec fn is_white_space(c: char) -> bool;

/// Whether `rest` is `text` without its leading and trailing white space: a
/// part of `text` with nothing but white space before and after it, which
/// neither begins nor ends with white space.
pub open spec fn is_trimmed(rest: Seq<char>, text: Seq<char>) -> bool {
    exists|start: int, end: int|
        {
            &&& 0 <= start <= end <= text.len()
            &&& #[trigger] text.subrange(start, end) == rest
            &&& forall|i: int| 0 <= i < start ==> is_white_space(#[trigger] text[i])
            &&& forall|i: int| end <= i < text.len() ==> is_white_space(#[trigger] text[i])
            &&& start < end ==> !is_white_space(text[start]) && !is_white_space(text[end - 1])
        }
}

/// `str::trim` returns the text without its leading and trailing white space,
/// where white space is what `char::is_whitespace` says.
pub assume_specification[ str::trim ](text: &str) -> (rest: &str)
    ensures
        is_trimmed(rest@, text@),
        rest@.len() > 0 ==> !is_white_space(rest@.first()) && !is_white_space(rest@.last()),
;

/// A text has one trimmed form.
pub proof fn lemma_trimmed_is_unique(first: Seq<char>, second: Seq<char>, text: Seq<char>)
    requires
        is_trimmed(first, text),
        is_trimmed(second, text),
    ensures
        first == second,
{
    let (a, b) = choose|start: int, end: int|
        {
            &&& 0 <= start <= end <= text.len()
            &&& #[trigger] text.subrange(start, end) == first
            &&& forall|i: int| 0 <= i < start ==> is_white_space(#[trigger] text[i])
            &&& forall|i: int| end <= i < text.len() ==> is_white_space(#[trigger] text[i])
            &&& start < end ==> !is_white_space(text[start]) && !is_white_space(text[end - 1])
        };
    let (c, d) = choose|start: int, end: int|
        {
            &&& 0 <= start <= end <= text.len()
            &&& #[trigger] text.subrange(start, end) == second
            &&& forall|i: int| 0 <= i < start ==> is_white_space(#[trigger] text[i])
            &&& forall|i: int| end <= i < text.len() ==> is_white_space(#[trigger] text[i])
            &&& start < end ==> !is_white_space(text[start]) && !is_white_space(text[end - 1])
        };
    if a < b && c < d {
        assert(a == c) by {
            if a < c {
                assert(is_white_space(text[a]));
            }
            if c < a {
                assert(is_white_space(text[c]));
            }
        }
        assert(b == d) by {
            if b < d {
                assert(is_white_space(text[d - 1]));
            }
            if d < b {
                assert(is_white_space(text[b - 1]));
            }
        }
    } else if a < b {
        assert(is_white_space(text[a])) by {
            if a < c {
            } else {
                assert(d <= a);
            }
        }
    } else if c < d {
        assert(is_white_space(text[c])) by {
            if c < a {
            } else {
                assert(b <= c);
            }
        }
    } else {
        assert(first =~= second);
    }
}

/// The texts of `parts` in order, with `separator` between each two.
pub open spec fn joined_with(parts: Seq<String>, separator: Seq<char>) -> Seq<char>
    decreases parts.len(),
{
    if parts.len() == 0 {
        Seq::empty()
    } else if parts.len() == 1 {
        parts[0]@
    } else {
        joined_with(parts.drop_last(), separator) + separator + parts.last()@
    }
}

/// Joins texts with a separator.
pub fn join(parts: &Vec<String>, separator: &str) -> (text: String)
    ensures
        text@ == joined_with(parts@, separator@),
{
    let mut text = String::new();
    let mut i: usize = 0;
    assert(parts@.take(0) =~= Seq::empty());
    while i < parts.len()
        invariant
            0 <= i <= parts.len(),
            text@ == joined_with(parts@.take(i as int), separator@),
        decreases parts.len() - i,
    {
        if i > 0 {
            text.append(separator);
        }
        text.append(parts[i].as_str());
        proof {
            let upto = parts@.take(i + 1);
            assert(upto.drop_last() =~= parts@.take(i as int));
            assert(upto.last() == parts@[i as int]);
            if i == 0 {
                assert(Seq::<char>::empty() + parts@[0]@ =~= parts@[0]@);
            }
        }
        i = i + 1;
    }
    assert(parts@.take(parts@.len() as int) =~= parts@);
    text
}

} // verus!
