//! Cutting text into pieces: at a separator, at line ends, at its edges.

use crate::text::{
    begins_with, chars_of, find_char, first_place, is_digit, is_space, join, joined,
    lemma_first_place, part_at, stands_at, string_between, text_of, whitespace, Text,
};
use crate::textlist::texts;
use vstd::prelude::*;
use vstd::string::*;

verus! {

broadcast use crate::textlist::group_texts;

/// What `str::to_uppercase` gives for a text.
pub uninterp spec fn raised_text(text: Seq<char>) -> Seq<char>;

/// Calls `str::to_uppercase`. Claimed: the result depends on the text alone and
/// is the one that [`raised_text`] names.
#[verifier::external_body]
pub(crate) fn raise(text: &str) -> (raised: String)
    ensures
        raised@ == raised_text(text@),
{
    text.to_uppercase()
}

/// The first place at or after `from` where a part stands.
pub open spec fn part_place(text: Text, part: Text, from: int) -> Option<int>
    decreases text.len() - from,
{
    if from < 0 || from + part.len() > text.len() {
        None
    } else if stands_at(text, part, from) {
        Some(from)
    } else if from >= text.len() {
        None
    } else {
        part_place(text, part, from + 1)
    }
}

/// The last place before `upto` where a part stands.
pub open spec fn last_part_place(text: Text, part: Text, upto: int) -> Option<int>
    decreases upto,
{
    if upto <= 0 {
        None
    } else if stands_at(text, part, upto - 1) {
        Some(upto - 1)
    } else {
        last_part_place(text, part, upto - 1)
    }
}

/// The two sides of a cut.
pub ghost struct Cut {
    pub before: Text,
    pub after: Text,
}

/// A text cut at the first place of a separator.
pub open spec fn cut_once(text: Text, separator: Text) -> Option<Cut> {
    match part_place(text, separator, 0) {
        Some(place) => Some(
            Cut { before: text.take(place), after: text.skip(place + separator.len()) },
        ),
        None => None,
    }
}

/// What follows the last place of a separator.
pub open spec fn after_last(text: Text, separator: Text) -> Option<Text> {
    match last_part_place(text, separator, text.len() as int) {
        Some(place) => Some(text.skip(place + separator.len())),
        None => None,
    }
}

proof fn lemma_part_place(text: Text, part: Text, from: int)
    requires
        0 <= from,
    ensures
        part_place(text, part, from) matches Some(place) ==> from <= place && stands_at(
            text,
            part,
            place,
        ),
    decreases text.len() - from,
{
    if from + part.len() <= text.len() && !stands_at(text, part, from) && from < text.len() {
        lemma_part_place(text, part, from + 1);
    }
}

proof fn lemma_last_part_place(text: Text, part: Text, upto: int)
    ensures
        last_part_place(text, part, upto) matches Some(place) ==> 0 <= place < upto && stands_at(
            text,
            part,
            place,
        ),
    decreases upto,
{
    if upto > 0 && !stands_at(text, part, upto - 1) {
        lemma_last_part_place(text, part, upto - 1);
    }
}

/// The pieces of a text between the places of a separator.
pub open spec fn pieces(text: Text, separator: Text) -> Seq<Text>
    decreases text.len(),
    via pieces_shrink
{
    if separator.len() == 0 {
        seq![text]
    } else {
        match cut_once(text, separator) {
            Some(cut) => seq![cut.before] + pieces(cut.after, separator),
            None => seq![text],
        }
    }
}

#[via_fn]
proof fn pieces_shrink(text: Text, separator: Text) {
    lemma_part_place(text, separator, 0);
}

/// A text with every place of one part taken by another.
pub open spec fn replaced(text: Text, part: Text, by: Text) -> Text {
    joined(pieces(text, part), by)
}

fn find_part(chars: &Vec<char>, part: &Vec<char>, from: usize) -> (place: Option<usize>)
    requires
        from <= chars@.len(),
    ensures
        match place {
            Some(place) => part_place(chars@, part@, from as int) == Some(place as int) && from
                <= place && place + part@.len() <= chars@.len(),
            None => part_place(chars@, part@, from as int) is None,
        },
{
    let mut next: usize = from;
    while next <= chars.len() && part.len() <= chars.len() - next
        invariant
            from <= next <= chars@.len() + 1,
            part_place(chars@, part@, from as int) == part_place(chars@, part@, next as int),
        decreases chars@.len() + 1 - next,
    {
        if part_at(chars, part, next) {
            return Some(next);
        }
        if next == chars.len() {
            return None;
        }
        next += 1;
    }
    None
}

/// Cuts a text at the first place of a separator.
pub fn split_once(text: &str, separator: &str) -> (cut: Option<(String, String)>)
    ensures
        match cut {
            Some((before, after)) => cut_once(text@, separator@) == Some(
                Cut { before: before@, after: after@ },
            ),
            None => cut_once(text@, separator@) is None,
        },
{
    let chars = chars_of(text);
    let part = chars_of(separator);
    match find_part(&chars, &part, 0) {
        Some(place) => {
            let length: usize = chars.len();
            let before = string_between(&chars, 0, place);
            let after = string_between(&chars, place + part.len(), length);
            proof {
                assert(before@ =~= text@.take(place as int));
                assert(after@ =~= text@.skip(place + separator@.len()));
            }
            Some((before, after))
        },
        None => None,
    }
}

/// What follows the last place of a separator.
pub fn rest_after_last(text: &str, separator: &str) -> (rest: Option<String>)
    ensures
        text_of(rest) == after_last(text@, separator@),
{
    let chars = chars_of(text);
    let part = chars_of(separator);
    let mut upto: usize = chars.len();
    while upto > 0
        invariant
            upto <= chars@.len(),
            chars@ == text@,
            part@ == separator@,
            last_part_place(text@, separator@, text@.len() as int) == last_part_place(
                text@,
                separator@,
                upto as int,
            ),
        decreases upto,
    {
        let place: usize = upto - 1;
        if part.len() <= chars.len() - place && part_at(&chars, &part, place) {
            let rest = string_between(&chars, place + part.len(), chars.len());
            proof {
                assert(rest@ =~= text@.skip(place + separator@.len()));
            }
            return Some(rest);
        }
        upto = place;
    }
    None
}

/// Cuts a text into the pieces between the places of a separator.
pub fn split_at_each(text: &str, separator: &str) -> (parts: Vec<String>)
    requires
        separator@.len() > 0,
    ensures
        texts(parts@) == pieces(text@, separator@),
{
    let mut parts: Vec<String> = Vec::new();
    let mut rest = text.to_owned();
    proof {
        assert(texts(parts@) + pieces(text@, separator@) =~= pieces(text@, separator@));
    }
    loop
        invariant
            separator@.len() > 0,
            texts(parts@) + pieces(rest@, separator@) == pieces(text@, separator@),
        decreases rest@.len(),
    {
        match split_once(rest.as_str(), separator) {
            Some((before, after)) => {
                let ghost listed = texts(parts@);
                proof {
                    lemma_part_place(rest@, separator@, 0);
                }
                parts.push(before);
                proof {
                    assert(texts(parts@) =~= listed.push(before@));
                    assert(texts(parts@) + pieces(after@, separator@) =~= listed + (seq![before@]
                        + pieces(after@, separator@)));
                }
                rest = after;
            },
            None => {
                let ghost listed = texts(parts@);
                parts.push(rest);
                proof {
                    assert(texts(parts@) =~= listed + seq![rest@]);
                }
                return parts;
            },
        }
    }
}

/// Puts one part in every place of another.
pub fn replace_each(text: &str, part: &str, by: &str) -> (changed: String)
    requires
        part@.len() > 0,
    ensures
        changed@ == replaced(text@, part@, by@),
{
    let parts = split_at_each(text, part);
    join(&parts, by)
}

/// A text without one carriage return at its end.
pub open spec fn without_return(text: Text) -> Text {
    if text.len() > 0 && text.last() == '\r' {
        text.drop_last()
    } else {
        text
    }
}

/// The lines of a text. A line end behind the last line makes no further line.
pub open spec fn lines_of(text: Text) -> Seq<Text>
    decreases text.len(),
    via lines_shrink
{
    if text.len() == 0 {
        Seq::empty()
    } else {
        let place = first_place(text, '\n');
        if place < text.len() {
            seq![without_return(text.take(place))] + lines_of(text.skip(place + 1))
        } else {
            seq![text]
        }
    }
}

#[via_fn]
proof fn lines_shrink(text: Text) {
    lemma_first_place(text, '\n');
}

/// Cuts a text into its lines.
pub fn split_lines(text: &str) -> (lines: Vec<String>)
    ensures
        texts(lines@) == lines_of(text@),
{
    let chars = chars_of(text);
    let mut lines: Vec<String> = Vec::new();
    let mut from: usize = 0;
    proof {
        assert(text@.skip(0) =~= text@);
        assert(texts(lines@) + lines_of(text@) =~= lines_of(text@));
    }
    while from < chars.len()
        invariant
            from <= chars@.len(),
            chars@ == text@,
            texts(lines@) + lines_of(text@.skip(from as int)) == lines_of(text@),
        decreases chars@.len() - from,
    {
        let ghost rest = text@.skip(from as int);
        let ghost listed = texts(lines@);
        let end: usize = find_char(&chars, from, '\n');
        proof {
            lemma_first_place(rest, '\n');
        }
        if end == chars.len() {
            let line = string_between(&chars, from, end);
            proof {
                assert(line@ =~= rest);
            }
            lines.push(line);
            proof {
                assert(texts(lines@) =~= listed + seq![rest]);
                assert(lines_of(rest) =~= seq![rest]);
                assert(text@.skip(end as int) =~= Seq::empty());
                assert(texts(lines@) + Seq::empty() =~= texts(lines@));
            }
            from = end;
        } else {
            let stop: usize = if end > from && chars[end - 1] == '\r' {
                end - 1
            } else {
                end
            };
            let line = string_between(&chars, from, stop);
            proof {
                let whole = rest.take(end - from);
                assert(whole =~= text@.subrange(from as int, end as int));
                assert(line@ =~= without_return(whole));
                assert(rest.skip(end - from + 1) =~= text@.skip(end + 1));
            }
            lines.push(line);
            proof {
                assert(texts(lines@) =~= listed.push(line@));
                assert(texts(lines@) + lines_of(text@.skip(end + 1)) =~= listed + (seq![line@]
                    + lines_of(text@.skip(end + 1))));
            }
            from = end + 1;
        }
    }
    proof {
        assert(text@.skip(from as int) =~= Seq::empty());
        assert(texts(lines@) + lines_of(text@.skip(from as int)) =~= texts(lines@));
    }
    lines
}

/// A text without the white space in front.
pub open spec fn without_lead(text: Text) -> Text
    decreases text.len(),
{
    if text.len() > 0 && is_space(text[0]) {
        without_lead(text.skip(1))
    } else {
        text
    }
}

/// Takes the white space in front off a text.
pub fn trim_lead(text: &str) -> (rest: String)
    ensures
        rest@ == without_lead(text@),
{
    let chars = chars_of(text);
    let mut from: usize = 0;
    proof {
        assert(text@.skip(0) =~= text@);
    }
    while from < chars.len() && whitespace(chars[from])
        invariant
            from <= chars@.len(),
            chars@ == text@,
            without_lead(text@) == without_lead(text@.skip(from as int)),
        decreases chars@.len() - from,
    {
        proof {
            assert(text@.skip(from as int).skip(1) =~= text@.skip(from + 1));
        }
        from += 1;
    }
    let rest = string_between(&chars, from, chars.len());
    proof {
        assert(rest@ =~= text@.skip(from as int));
    }
    rest
}

/// Whether a text holds nothing but white space.
pub open spec fn blank(text: Text) -> bool {
    forall|i: int| 0 <= i < text.len() ==> is_space(#[trigger] text[i])
}

/// Whether a text holds nothing but white space.
pub fn is_blank(text: &str) -> (answer: bool)
    ensures
        answer == blank(text@),
{
    let chars = chars_of(text);
    let mut next: usize = 0;
    while next < chars.len()
        invariant
            next <= chars@.len(),
            chars@ == text@,
            forall|i: int| 0 <= i < next ==> is_space(#[trigger] text@[i]),
        decreases chars@.len() - next,
    {
        if !whitespace(chars[next]) {
            return false;
        }
        next += 1;
    }
    true
}

/// Whether a text ends with a suffix.
pub open spec fn ends_with(text: Text, suffix: Text) -> bool {
    suffix.len() <= text.len() && stands_at(text, suffix, text.len() - suffix.len())
}

/// Whether a text ends with a suffix.
pub fn has_suffix(text: &str, suffix: &str) -> (answer: bool)
    ensures
        answer == ends_with(text@, suffix@),
{
    let chars = chars_of(text);
    let tail = chars_of(suffix);
    tail.len() <= chars.len() && part_at(&chars, &tail, chars.len() - tail.len())
}

/// Whether a text begins with a prefix.
pub fn has_prefix(text: &str, prefix: &str) -> (answer: bool)
    ensures
        answer == begins_with(text@, prefix@),
{
    let chars = chars_of(text);
    let lead = chars_of(prefix);
    let answer = lead.len() <= chars.len() && part_at(&chars, &lead, 0);
    proof {
        if prefix@.len() <= text@.len() {
            assert(text@.take(prefix@.len() as int) =~= text@.subrange(0, prefix@.len() as int));
        }
    }
    answer
}

/// A text without a suffix that it ends with.
pub open spec fn without_suffix(text: Text, suffix: Text) -> Text {
    if ends_with(text, suffix) {
        text.take(text.len() - suffix.len())
    } else {
        text
    }
}

/// Takes a suffix off a text that ends with it.
pub fn trim_suffix(text: &str, suffix: &str) -> (rest: String)
    ensures
        rest@ == without_suffix(text@, suffix@),
{
    let chars = chars_of(text);
    let tail = chars_of(suffix);
    if tail.len() <= chars.len() && part_at(&chars, &tail, chars.len() - tail.len()) {
        let rest = string_between(&chars, 0, chars.len() - tail.len());
        proof {
            assert(rest@ =~= text@.take(text@.len() - suffix@.len()));
        }
        rest
    } else {
        text.to_owned()
    }
}

/// Whether a text holds digits and nothing else, and at least one.
pub open spec fn all_digits(text: Text) -> bool {
    text.len() > 0 && forall|i: int| 0 <= i < text.len() ==> is_digit(#[trigger] text[i])
}

/// Whether a text holds digits and nothing else, and at least one.
pub fn is_all_digits(text: &str) -> (answer: bool)
    ensures
        answer == all_digits(text@),
{
    let chars = chars_of(text);
    let mut next: usize = 0;
    while next < chars.len()
        invariant
            next <= chars@.len(),
            chars@ == text@,
            forall|i: int| 0 <= i < next ==> is_digit(#[trigger] text@[i]),
        decreases chars@.len() - next,
    {
        let letter = chars[next];
        if !('0' <= letter && letter <= '9') {
            return false;
        }
        next += 1;
    }
    chars.len() > 0
}

/// A text without one character.
pub open spec fn without_char(text: Text, letter: char) -> Text
    decreases text.len(),
{
    if text.len() == 0 {
        Seq::empty()
    } else if text.last() == letter {
        without_char(text.drop_last(), letter)
    } else {
        without_char(text.drop_last(), letter).push(text.last())
    }
}

/// Leaves one character out of a text.
pub fn drop_char(text: &str, letter: char) -> (rest: String)
    ensures
        rest@ == without_char(text@, letter),
{
    let chars = chars_of(text);
    let mut rest = String::new();
    let mut next: usize = 0;
    proof {
        assert(text@.take(0) =~= Seq::empty());
        assert(rest@ =~= Seq::empty());
    }
    while next < chars.len()
        invariant
            next <= chars@.len(),
            chars@ == text@,
            rest@ == without_char(text@.take(next as int), letter),
        decreases chars@.len() - next,
    {
        proof {
            assert(text@.take(next + 1).drop_last() =~= text@.take(next as int));
        }
        if chars[next] != letter {
            rest.push(chars[next]);
        }
        next += 1;
    }
    proof {
        assert(text@.take(text@.len() as int) =~= text@);
    }
    rest
}

/// A character several times over.
pub open spec fn repeated(letter: char, count: nat) -> Text {
    Seq::new(count, |i: int| letter)
}

/// Writes a character several times over.
pub fn repeat_char(letter: char, count: usize) -> (text: String)
    ensures
        text@ == repeated(letter, count as nat),
{
    let mut text = String::new();
    let mut written: usize = 0;
    while written < count
        invariant
            written <= count,
            text@ == repeated(letter, written as nat),
        decreases count - written,
    {
        text.push(letter);
        written += 1;
        proof {
            assert(text@ =~= repeated(letter, written as nat));
        }
    }
    text
}

} // verus!
