//! Text rules shared by the catalog and the tag reader: trimming and
//! blankness, with white space as Unicode defines it, and lower case.

use vstd::prelude::*;
use vstd::string::*;

verus! {

/// Whether Unicode counts the character as white space: the tab, the line
/// and page breaks, the spaces of every width, and the line and paragraph
/// separators. These are the characters that `char::is_whitespace` accepts
/// and `str::trim` removes.
pub open spec fn is_whitespace(c: char) -> bool {
    let code = c as u32;
    ||| 0x0009 <= code <= 0x000d
    ||| code == 0x0020
    ||| code == 0x0085
    ||| code == 0x00a0
    ||| code == 0x1680
    ||| 0x2000 <= code <= 0x200a
    ||| code == 0x2028
    ||| code == 0x2029
    ||| code == 0x202f
    ||| code == 0x205f
    ||| code == 0x3000
}

/// The text in lower case: the result of `str::to_lowercase`.
pub uninterp spec fn lowercase(text: Seq<char>) -> Seq<char>;

/// Whether Unicode counts the character as white space.
pub fn char_is_whitespace(c: char) -> (white: bool)
    ensures
        white == is_whitespace(c),
{
    let code: u32 = c as u32;
    (0x0009 <= code && code <= 0x000d) || code == 0x0020 || code == 0x0085 || code == 0x00a0
        || code == 0x1680 || (0x2000 <= code && code <= 0x200a) || code == 0x2028 || code
        == 0x2029 || code == 0x202f || code == 0x205f || code == 0x3000
}

/// Calls `str::to_lowercase` and gives its result its name.
#[verifier::external_body]
pub(crate) fn str_to_lowercase(text: &str) -> (lower: String)
    ensures
        lower@ == lowercase(text@),
{
    text.to_lowercase()
}

/// How many marks the sequence starts with.
pub open spec fn leading_marks(marks: Seq<bool>) -> nat
    decreases marks.len(),
{
    if marks.len() > 0 && marks.first() {
        1 + leading_marks(marks.drop_first())
    } else {
        0
    }
}

/// How many marks the sequence ends with.
pub open spec fn trailing_marks(marks: Seq<bool>) -> nat
    decreases marks.len(),
{
    if marks.len() > 0 && marks.last() {
        1 + trailing_marks(marks.drop_last())
    } else {
        0
    }
}

/// One mark for each character of a text of the given length: the mark given
/// for it, or none where the marks run out before the text.
pub open spec fn marks_for(len: nat, white: Seq<bool>) -> Seq<bool> {
    Seq::new(len, |i: int| i < white.len() && white[i])
}

/// The text without the marked characters at its two ends.
pub open spec fn trimmed_by(text: Seq<char>, white: Seq<bool>) -> Seq<char> {
    let marks = marks_for(text.len(), white);
    let start = leading_marks(marks);
    let rest = marks.skip(start as int);
    text.subrange(start as int, text.len() - trailing_marks(rest))
}

/// The whitespace of a text, character by character.
pub open spec fn whiteness(text: Seq<char>) -> Seq<bool> {
    Seq::new(text.len(), |i: int| is_whitespace(text[i]))
}

/// The text without the whitespace at its two ends.
pub open spec fn trimmed(text: Seq<char>) -> Seq<char> {
    trimmed_by(text, whiteness(text))
}

/// Nothing but whitespace, or nothing at all.
pub open spec fn is_blank_spec(text: Seq<char>) -> bool {
    trimmed(text).len() == 0
}

/// A run of `count` marks at the start, ended by a gap or by the end of the
/// sequence, is the leading run.
pub proof fn lemma_leading_marks(marks: Seq<bool>, count: nat)
    requires
        count <= marks.len(),
        forall|i: int| 0 <= i < count ==> #[trigger] marks[i],
        count == marks.len() || !marks[count as int],
    ensures
        leading_marks(marks) == count,
    decreases count,
{
    if count > 0 {
        let rest = marks.drop_first();
        assert forall|i: int| 0 <= i < count - 1 implies #[trigger] rest[i] by {
            assert(rest[i] == marks[i + 1]);
        }
        lemma_leading_marks(rest, (count - 1) as nat);
    }
}

/// The same at the end of the sequence.
pub proof fn lemma_trailing_marks(marks: Seq<bool>, count: nat)
    requires
        count <= marks.len(),
        forall|i: int| marks.len() - count <= i < marks.len() ==> #[trigger] marks[i],
        count == marks.len() || !marks[marks.len() - count - 1],
    ensures
        trailing_marks(marks) == count,
    decreases count,
{
    if count > 0 {
        let rest = marks.drop_last();
        assert forall|i: int| rest.len() - (count - 1) <= i < rest.len() implies #[trigger] rest[i] by {
            assert(rest[i] == marks[i]);
        }
        lemma_trailing_marks(rest, (count - 1) as nat);
    }
}

/// Whether the character at `at` is marked.
fn is_marked(white: &Vec<bool>, at: usize) -> (marked: bool)
    ensures
        marked == (at < white.len() && white[at as int]),
{
    at < white.len() && white[at]
}

/// Cuts the marked characters off the two ends of a text. `white` marks the
/// text's characters in order; a character past the last mark is unmarked.
pub fn trim_marked(text: &str, white: &Vec<bool>) -> (inner: String)
    ensures
        inner@ == trimmed_by(text@, white@),
{
    let length: usize = text.unicode_len();
    let ghost marks = marks_for(text@.len(), white@);
    let mut start: usize = 0;
    while start < length && is_marked(white, start)
        invariant
            length == text@.len(),
            marks == marks_for(text@.len(), white@),
            start <= length,
            forall|i: int| 0 <= i < start ==> #[trigger] marks[i],
        decreases length - start,
    {
        start = start + 1;
    }
    let mut end: usize = length;
    while end > start && is_marked(white, (end - 1) as usize)
        invariant
            length == text@.len(),
            marks == marks_for(text@.len(), white@),
            start <= end <= length,
            forall|i: int| end <= i < length ==> #[trigger] marks[i],
        decreases end,
    {
        end = end - 1;
    }
    proof {
        lemma_leading_marks(marks, start as nat);
        let rest = marks.skip(start as int);
        assert forall|i: int| rest.len() - (length - end) <= i < rest.len() implies #[trigger] rest[i] by {
            assert(rest[i] == marks[i + start]);
        }
        lemma_trailing_marks(rest, (length - end) as nat);
    }
    text.substring_char(start, end).to_owned()
}

/// The text without the whitespace at its two ends, as `str::trim` gives it.
pub fn trim(text: &str) -> (inner: String)
    ensures
        inner@ == trimmed(text@),
{
    let length: usize = text.unicode_len();
    let mut white: Vec<bool> = Vec::new();
    let mut i: usize = 0;
    while i < length
        invariant
            length == text@.len(),
            i <= length,
            white@.len() == i,
            forall|j: int| 0 <= j < i ==> white@[j] == is_whitespace(text@[j]),
        decreases length - i,
    {
        white.push(char_is_whitespace(text.get_char(i)));
        i = i + 1;
    }
    proof {
        assert(white@ =~= whiteness(text@));
    }
    trim_marked(text, &white)
}

/// Whether the text holds nothing but whitespace.
pub fn is_blank(text: &str) -> (blank: bool)
    ensures
        blank == is_blank_spec(text@),
{
    let inner = trim(text);
    inner.as_str().unicode_len() == 0
}

} // verus!
