//! Text as sequences of characters: joining, cutting, numbering and naming.

use crate::textlist::texts;
use vstd::prelude::*;
use vstd::string::*;

verus! {

broadcast use crate::textlist::group_texts;

/// The mathematical model of a string.
pub type Text = Seq<char>;

/// What `str::to_lowercase` gives for a text.
pub uninterp spec fn lowercase_text(text: Seq<char>) -> Seq<char>;

/// What `char::to_uppercase` gives for a character beyond ASCII, as a text.
pub uninterp spec fn uppercase_text(letter: char) -> Seq<char>;

/// A character in upper case, as a text: the letters `a` to `z` become `A` to
/// `Z`, other ASCII characters stay, and for the rest the mappings of Unicode
/// hold, which may give several characters.
pub open spec fn upper(letter: char) -> Text {
    let code = letter as u32;
    if 0x61 <= code <= 0x7a {
        seq![(code - 0x20) as u8 as char]
    } else if code < 0x80 {
        seq![letter]
    } else {
        uppercase_text(letter)
    }
}

/// Whether a character is white space: whether it has the Unicode property
/// `White_Space`.
pub open spec fn is_space(letter: char) -> bool {
    let code = letter as int;
    ||| 0x09 <= code <= 0x0d
    ||| code == 0x20
    ||| code == 0x85
    ||| code == 0xa0
    ||| code == 0x1680
    ||| 0x2000 <= code <= 0x200a
    ||| code == 0x2028
    ||| code == 0x2029
    ||| code == 0x202f
    ||| code == 0x205f
    ||| code == 0x3000
}

/// Calls `str::to_lowercase`. Claimed: the result depends on the text alone and
/// is the one that [`lowercase_text`] names.
#[verifier::external_body]
pub(crate) fn lowercase(text: &str) -> (lowered: String)
    ensures
        lowered@ == lowercase_text(text@),
{
    text.to_lowercase()
}

/// Calls `char::to_uppercase` and collects what it yields into a string.
/// Claimed: a character with a one-to-one mapping in the Unicode Character
/// Database becomes that character and one without a mapping stays, which for
/// ASCII is what [`upper`] spells out. For any other character the result
/// depends on the character alone and is the one that [`uppercase_text`] names.
#[verifier::external_body]
pub(crate) fn uppercase(letter: char) -> (raised: String)
    ensures
        letter as u32 >= 0x80 ==> raised@ == uppercase_text(letter),
        letter as u32 <= 0x7f ==> raised@ == upper(letter),
{
    letter.to_uppercase().to_string()
}

/// Whether a character is white space, as `char::is_whitespace` has it.
pub(crate) fn whitespace(letter: char) -> (answer: bool)
    ensures
        answer == is_space(letter),
{
    let code: u32 = letter as u32;
    0x09 <= code && code <= 0x0d || code == 0x20 || code == 0x85 || code == 0xa0 || code == 0x1680
        || 0x2000 <= code && code <= 0x200a || code == 0x2028 || code == 0x2029 || code == 0x202f
        || code == 0x205f || code == 0x3000
}

/// `String::push` puts one character behind the text.
pub assume_specification[ String::push ](string: &mut String, letter: char)
    ensures
        final(string)@ == old(string)@.push(letter),
;

/// Whether two texts hold the same characters.
pub fn same_text(left: &str, right: &str) -> (same: bool)
    ensures
        same == (left@ == right@),
{
    left.to_owned() == right.to_owned()
}

/// The characters of a text, in order.
pub fn chars_of(text: &str) -> (chars: Vec<char>)
    ensures
        chars@ == text@,
{
    let mut chars: Vec<char> = Vec::new();
    for letter in iter: text.chars()
        invariant
            iter.seq() == text@,
            chars@ == text@.take(iter.index() as int),
    {
        chars.push(letter);
        proof {
            assert(chars@ =~= text@.take(iter.index() as int + 1));
        }
    }
    assert(text@.take(text@.len() as int) =~= text@);
    chars
}

/// The text made of the characters from `from` up to but excluding `to`.
pub fn string_between(chars: &Vec<char>, from: usize, to: usize) -> (string: String)
    requires
        from <= to <= chars@.len(),
    ensures
        string@ == chars@.subrange(from as int, to as int),
{
    let mut string = String::new();
    let mut next: usize = from;
    while next < to
        invariant
            from <= next <= to <= chars@.len(),
            string@ == chars@.subrange(from as int, next as int),
        decreases to - next,
    {
        string.push(chars[next]);
        next += 1;
        proof {
            assert(chars@.subrange(from as int, next as int) =~= chars@.subrange(
                from as int,
                next - 1,
            ).push(chars@[next - 1]));
        }
    }
    string
}

/// One text behind the other.
pub fn cat(first: &str, second: &str) -> (joined: String)
    ensures
        joined@ == first@ + second@,
{
    first.to_owned().concat(second)
}

/// Three texts in a row.
pub fn cat3(first: &str, second: &str, third: &str) -> (joined: String)
    ensures
        joined@ == first@ + second@ + third@,
{
    first.to_owned().concat(second).concat(third)
}

/// The decimal digit for a number below ten.
pub open spec fn digit(value: nat) -> char {
    (48 + value) as char
}

/// A number in decimal notation, without leading zeros.
pub open spec fn decimal_text(value: nat) -> Text
    decreases value,
{
    if value < 10 {
        seq![digit(value)]
    } else {
        decimal_text(value / 10).push(digit(value % 10))
    }
}

fn digit_char(value: u64) -> (letter: char)
    requires
        value < 10,
    ensures
        letter == digit(value as nat),
{
    (48u8 + value as u8) as char
}

/// Writes a number in decimal notation.
pub fn decimal(value: u64) -> (text: String)
    ensures
        text@ == decimal_text(value as nat),
    decreases value,
{
    if value < 10 {
        let mut text = String::new();
        text.push(digit_char(value));
        proof {
            assert(text@ =~= seq![digit(value as nat)]);
        }
        text
    } else {
        let mut text = decimal(value / 10);
        text.push(digit_char(value % 10));
        text
    }
}


/// A signed number in decimal notation.
pub open spec fn signed_text(value: int) -> Text {
    if value < 0 {
        seq!['-'] + decimal_text((-value) as nat)
    } else {
        decimal_text(value as nat)
    }
}

/// Writes a signed number in decimal notation.
pub fn signed_decimal(value: i64) -> (text: String)
    ensures
        text@ == signed_text(value as int),
{
    if value < 0 {
        let magnitude: u64 = if value == i64::MIN {
            0x8000_0000_0000_0000u64
        } else {
            (-value) as u64
        };
        let mut text = String::new();
        text.push('-');
        proof {
            assert(text@ =~= seq!['-']);
        }
        text.concat(decimal(magnitude).as_str())
    } else {
        decimal(value as u64)
    }
}

/// A text brought to at least `width` characters by zeros in front.
pub open spec fn zero_padded(text: Text, width: nat) -> Text {
    if text.len() >= width {
        text
    } else {
        Seq::new((width - text.len()) as nat, |i: int| '0') + text
    }
}

/// Writes a number with at least `width` digits.
pub fn padded_decimal(value: u64, width: usize) -> (text: String)
    ensures
        text@ == zero_padded(decimal_text(value as nat), width as nat),
{
    let plain = decimal(value);
    let length: usize = plain.as_str().unicode_len();
    if length >= width {
        return plain;
    }
    let mut text = String::new();
    let missing: usize = width - length;
    let mut written: usize = 0;
    while written < missing
        invariant
            written <= missing,
            text@ == Seq::new(written as nat, |i: int| '0'),
        decreases missing - written,
    {
        text.push('0');
        written += 1;
        proof {
            assert(text@ =~= Seq::new(written as nat, |i: int| '0'));
        }
    }
    text.concat(plain.as_str())
}

/// The model of a string that may be missing.
pub open spec fn text_of(string: Option<String>) -> Option<Text> {
    match string {
        Some(string) => Some(string@),
        None => None,
    }
}

/// A copy of a string that may be missing.
pub fn copy_text(string: &Option<String>) -> (copy: Option<String>)
    ensures
        text_of(copy) == text_of(*string),
{
    match string {
        Some(string) => Some(string.clone()),
        None => None,
    }
}

/// A copy of a list of strings.
pub fn copy_texts(strings: &Vec<String>) -> (copy: Vec<String>)
    ensures
        texts(copy@) == texts(strings@),
{
    let mut copy: Vec<String> = Vec::new();
    let mut next: usize = 0;
    while next < strings.len()
        invariant
            next <= strings@.len(),
            copy@.len() == next,
            forall|i: int| 0 <= i < next ==> (#[trigger] copy@[i])@ == strings@[i]@,
        decreases strings@.len() - next,
    {
        copy.push(strings[next].clone());
        next += 1;
    }
    assert(texts(copy@) =~= texts(strings@));
    copy
}

/// Texts in a row with a separator between neighbours.
pub open spec fn joined(words: Seq<Text>, separator: Text) -> Text
    decreases words.len(),
{
    if words.len() == 0 {
        Seq::empty()
    } else if words.len() == 1 {
        words[0]
    } else {
        joined(words.drop_last(), separator) + separator + words.last()
    }
}

/// Joins strings with a separator between neighbours.
pub fn join(words: &Vec<String>, separator: &str) -> (text: String)
    ensures
        text@ == joined(texts(words@), separator@),
{
    let mut text = String::new();
    let mut next: usize = 0;
    proof {
        assert(texts(words@).take(0) =~= Seq::empty());
    }
    while next < words.len()
        invariant
            next <= words@.len(),
            text@ == joined(texts(words@).take(next as int), separator@),
        decreases words@.len() - next,
    {
        let ghost before = texts(words@).take(next as int);
        let ghost after = texts(words@).take(next + 1);
        proof {
            assert(after.drop_last() =~= before);
            assert(after.last() == words@[next as int]@);
        }
        if next == 0 {
            text = words[0].clone();
        } else {
            text = text.concat(separator).concat(words[next].as_str());
        }
        next += 1;
    }
    assert(texts(words@).take(words@.len() as int) =~= texts(words@));
    text
}

/// Which characters part a text into words.
#[derive(Clone, Copy, Debug, PartialEq, Eq, Structural)]
pub enum Breaks {
    /// White space.
    Space,
    /// The separators of a runtime family: slash, hyphen, underscore, full stop.
    Family,
    /// Those separators and white space.
    Identifier,
}

/// Whether a character is a slash, a hyphen, an underscore or a full stop.
pub open spec fn is_separator(letter: char) -> bool {
    letter == '-' || letter == '_' || letter == '.' || letter == '/'
}

impl Breaks {
    /// Whether a character parts words.
    pub open spec fn at(self, letter: char) -> bool {
        match self {
            Breaks::Space => is_space(letter),
            Breaks::Family => is_separator(letter),
            Breaks::Identifier => is_separator(letter) || is_space(letter),
        }
    }

    fn breaks(self, letter: char) -> (answer: bool)
        ensures
            answer == self.at(letter),
    {
        let separator = letter == '-' || letter == '_' || letter == '.' || letter == '/';
        match self {
            Breaks::Space => whitespace(letter),
            Breaks::Family => separator,
            Breaks::Identifier => separator || whitespace(letter),
        }
    }
}

/// The word that a text ends in; empty when it ends in a break.
pub open spec fn open_word(text: Text, breaks: Breaks) -> Text
    decreases text.len(),
{
    if text.len() == 0 || breaks.at(text.last()) {
        Seq::empty()
    } else {
        open_word(text.drop_last(), breaks).push(text.last())
    }
}

/// The words of a text that a break ends, in order.
pub open spec fn closed_words(text: Text, breaks: Breaks) -> Seq<Text>
    decreases text.len(),
{
    if text.len() == 0 {
        Seq::empty()
    } else if breaks.at(text.last()) {
        with_word(closed_words(text.drop_last(), breaks), open_word(text.drop_last(), breaks))
    } else {
        closed_words(text.drop_last(), breaks)
    }
}

/// A list of words with one more, unless that one is empty.
pub open spec fn with_word(words: Seq<Text>, word: Text) -> Seq<Text> {
    if word.len() == 0 {
        words
    } else {
        words.push(word)
    }
}

/// The words of a text: its longest stretches without a break.
pub open spec fn words_in(text: Text, breaks: Breaks) -> Seq<Text> {
    with_word(closed_words(text, breaks), open_word(text, breaks))
}

fn push_word(words: &mut Vec<String>, word: String)
    ensures
        texts(final(words)@) == with_word(texts(old(words)@), word@),
{
    if word.as_str().is_empty() {
        return;
    }
    words.push(word);
    assert(texts(words@) =~= with_word(texts(old(words)@), word@));
}

/// Parts a text into its words.
pub fn split_words(text: &str, breaks: Breaks) -> (words: Vec<String>)
    ensures
        texts(words@) == words_in(text@, breaks),
{
    let chars = chars_of(text);
    let mut words: Vec<String> = Vec::new();
    let mut word = String::new();
    let mut next: usize = 0;
    proof {
        assert(texts(words@) =~= closed_words(text@.take(0), breaks));
        assert(word@ =~= open_word(text@.take(0), breaks));
    }
    while next < chars.len()
        invariant
            next <= chars@.len(),
            chars@ == text@,
            texts(words@) == closed_words(text@.take(next as int), breaks),
            word@ == open_word(text@.take(next as int), breaks),
        decreases chars@.len() - next,
    {
        let letter = chars[next];
        proof {
            assert(text@.take(next + 1).drop_last() =~= text@.take(next as int));
            assert(text@.take(next + 1).last() == letter);
        }
        if breaks.breaks(letter) {
            push_word(&mut words, word);
            word = String::new();
            proof {
                assert(word@ =~= Seq::empty());
            }
        } else {
            word.push(letter);
        }
        next += 1;
    }
    proof {
        assert(text@.take(text@.len() as int) =~= text@);
    }
    push_word(&mut words, word);
    words
}

/// A word with its first character raised to upper case.
pub open spec fn capitalized(word: Text) -> Text {
    if word.len() == 0 {
        Seq::empty()
    } else {
        upper(word[0]) + word.skip(1)
    }
}

/// Raises the first character of a word to upper case.
pub fn capitalize(word: &str) -> (text: String)
    ensures
        text@ == capitalized(word@),
{
    let chars = chars_of(word);
    if chars.len() == 0 {
        return String::new();
    }
    let rest = string_between(&chars, 1, chars.len());
    proof {
        assert(rest@ =~= word@.skip(1));
    }
    uppercase(chars[0]).concat(rest.as_str())
}

/// Every word of a list with its first character raised to upper case.
pub open spec fn all_capitalized(words: Seq<Text>) -> Seq<Text> {
    Seq::new(words.len(), |i: int| capitalized(words[i]))
}

/// The place of the first such character, or the length of the text.
pub open spec fn first_place(text: Text, letter: char) -> int
    decreases text.len(),
{
    if text.len() == 0 || text[0] == letter {
        0
    } else {
        1 + first_place(text.skip(1), letter)
    }
}

pub proof fn lemma_first_place(text: Text, letter: char)
    ensures
        0 <= first_place(text, letter) <= text.len(),
        forall|i: int| 0 <= i < first_place(text, letter) ==> text[i] != letter,
        first_place(text, letter) < text.len() ==> text[first_place(text, letter)] == letter,
    decreases text.len(),
{
    if text.len() == 0 || text[0] == letter {
    } else {
        lemma_first_place(text.skip(1), letter);
        assert forall|i: int| 0 <= i < first_place(text, letter) implies text[i] != letter by {
            if i > 0 {
                assert(text[i] == text.skip(1)[i - 1]);
            }
        }
    }
}

pub proof fn lemma_first_place_is(text: Text, letter: char, place: int)
    requires
        0 <= place <= text.len(),
        forall|i: int| 0 <= i < place ==> text[i] != letter,
        place < text.len() ==> text[place] == letter,
    ensures
        first_place(text, letter) == place,
{
    lemma_first_place(text, letter);
    let found = first_place(text, letter);
    if found < place {
        assert(text[found] != letter);
    } else if place < found {
        assert(text[place] != letter);
    }
}

/// The place of the first such character at or after `from`, or the length.
pub(crate) fn find_char(chars: &Vec<char>, from: usize, letter: char) -> (place: usize)
    requires
        from <= chars@.len(),
    ensures
        from <= place <= chars@.len(),
        place - from == first_place(chars@.skip(from as int), letter),
{
    let mut place: usize = from;
    while place < chars.len() && chars[place] != letter
        invariant
            from <= place <= chars@.len(),
            forall|i: int| from <= i < place ==> chars@[i] != letter,
        decreases chars@.len() - place,
    {
        place += 1;
    }
    proof {
        let tail = chars@.skip(from as int);
        assert forall|i: int| 0 <= i < place - from implies tail[i] != letter by {
            assert(tail[i] == chars@[from + i]);
        }
        lemma_first_place_is(tail, letter, place - from);
    }
    place
}

/// The part of an identifier that names the thing: what stands between the
/// first and the second colon, or all of it when there is no colon.
pub open spec fn identity_part(value: Text) -> Text {
    if value.contains(':') {
        let rest = value.skip(first_place(value, ':') + 1);
        rest.take(first_place(rest, ':'))
    } else {
        value
    }
}

/// The words that a person reads of an identifier, before any is capitalized.
pub open spec fn name_words(value: Text) -> Seq<Text> {
    words_in(identity_part(value), Breaks::Identifier)
}

/// An identifier as a person reads it. In a chain of parts every word of the
/// naming part is capitalized; otherwise only the first character is.
pub open spec fn humanized(value: Text) -> Text {
    let words = name_words(value);
    if value.contains(':') {
        joined(all_capitalized(words), seq![' '])
    } else {
        capitalized(joined(words, seq![' ']))
    }
}

/// Whether a character can stand in a word of an identifier.
pub open spec fn is_wordly(letter: char) -> bool {
    !Breaks::Identifier.at(letter) && letter != ':'
}

/// Whether a text is a word of an identifier.
pub open spec fn is_word(text: Text) -> bool {
    text.len() > 0 && forall|i: int| 0 <= i < text.len() ==> is_wordly(#[trigger] text[i])
}

/// Whether a list holds just words of an identifier.
pub open spec fn all_words(words: Seq<Text>) -> bool {
    forall|i: int| 0 <= i < words.len() ==> is_word(#[trigger] words[i])
}

/// Whether raising a character to upper case is final: the first character of
/// what comes out is left as it is when it is raised again, and what could stand
/// in a word still can.
pub open spec fn raises_for_good(letter: char) -> bool {
    let raised = upper(letter);
    &&& raised.len() > 0
    &&& upper(raised[0]) == seq![raised[0]]
    &&& is_wordly(letter) ==> forall|i: int| 0 <= i < raised.len() ==> is_wordly(#[trigger] raised[i])
}

proof fn lemma_words_of(text: Text)
    requires
        !text.contains(':'),
    ensures
        all_words(closed_words(text, Breaks::Identifier)),
        open_word(text, Breaks::Identifier).len() > 0 ==> is_word(
            open_word(text, Breaks::Identifier),
        ),
    decreases text.len(),
{
    if text.len() > 0 {
        let shorter = text.drop_last();
        assert(!shorter.contains(':')) by {
            if shorter.contains(':') {
                let i = choose|i: int| 0 <= i < shorter.len() && shorter[i] == ':';
                assert(text[i] == ':');
            }
        }
        lemma_words_of(shorter);
        assert(text.contains(text[text.len() - 1]));
    }
}

pub proof fn lemma_word_behind(text: Text, word: Text)
    requires
        forall|i: int| 0 <= i < word.len() ==> is_wordly(#[trigger] word[i]),
    ensures
        closed_words(text + word, Breaks::Identifier) == closed_words(text, Breaks::Identifier),
        open_word(text + word, Breaks::Identifier) == open_word(text, Breaks::Identifier) + word,
    decreases word.len(),
{
    if word.len() == 0 {
        assert(text + word =~= text);
        assert(open_word(text, Breaks::Identifier) + word =~= open_word(text, Breaks::Identifier));
    } else {
        let shorter = word.drop_last();
        lemma_word_behind(text, shorter);
        assert((text + word).drop_last() =~= text + shorter);
        assert((text + word).last() == word.last());
        assert(is_wordly(word[word.len() - 1]));
        assert((open_word(text, Breaks::Identifier) + shorter).push(word.last()) =~= open_word(
            text,
            Breaks::Identifier,
        ) + word);
    }
}

proof fn lemma_words_come_apart(words: Seq<Text>)
    requires
        all_words(words),
    ensures
        words_in(joined(words, seq![' ']), Breaks::Identifier) == words,
        forall|i: int|
            0 <= i < joined(words, seq![' ']).len() ==> (#[trigger] joined(words, seq![' '])[i])
                != ':',
    decreases words.len(),
{
    let text = joined(words, seq![' ']);
    if words.len() == 0 {
        assert(words_in(text, Breaks::Identifier) =~= words);
    } else if words.len() == 1 {
        assert(is_word(words[0]));
        lemma_word_behind(Seq::empty(), words[0]);
        assert(Seq::<char>::empty() + words[0] =~= words[0]);
        assert(words_in(text, Breaks::Identifier) =~= words);
    } else {
        let shorter = words.drop_last();
        let word = words.last();
        assert(is_word(words[words.len() - 1]));
        assert(all_words(shorter)) by {
            assert forall|i: int| 0 <= i < shorter.len() implies is_word(#[trigger] shorter[i]) by {
                assert(shorter[i] == words[i]);
            }
        }
        lemma_words_come_apart(shorter);
        let before = joined(shorter, seq![' ']);
        let parted = before + seq![' '];
        assert(parted.drop_last() =~= before);
        assert(parted.last() == ' ');
        assert(closed_words(parted, Breaks::Identifier) == shorter);
        assert(open_word(parted, Breaks::Identifier) =~= Seq::empty());
        lemma_word_behind(parted, word);
        assert(Seq::<char>::empty() + word =~= word);
        assert(shorter.push(word) =~= words);
        assert forall|i: int| 0 <= i < text.len() implies (#[trigger] text[i]) != ':' by {
            if i < before.len() {
                assert(text[i] == before[i]);
            } else if i > before.len() {
                assert(is_wordly(word[i - before.len() - 1]));
            }
        }
    }
}

pub proof fn lemma_joined_begins(words: Seq<Text>, separator: Text)
    requires
        words.len() > 0,
        words[0].len() > 0,
    ensures
        joined(words, separator).len() > 0,
        joined(words, separator)[0] == words[0][0],
        capitalized(joined(words, separator)) == joined(
            words.update(0, capitalized(words[0])),
            separator,
        ),
    decreases words.len(),
{
    let raised = words.update(0, capitalized(words[0]));
    if words.len() > 1 {
        let shorter = words.drop_last();
        lemma_joined_begins(shorter, separator);
        assert(raised.drop_last() =~= shorter.update(0, capitalized(shorter[0])));
        let before = joined(shorter, separator);
        assert(joined(words, separator).skip(1) =~= before.skip(1) + separator + words.last());
        assert(capitalized(joined(words, separator)) =~= capitalized(before) + separator
            + words.last());
    }
}

proof fn lemma_settled(words: Seq<Text>)
    requires
        all_words(words),
        words.len() > 0 ==> upper(words[0][0]) == seq![words[0][0]],
    ensures
        humanized(joined(words, seq![' '])) == joined(words, seq![' ']),
{
    let text = joined(words, seq![' ']);
    lemma_words_come_apart(words);
    assert(!text.contains(':'));
    if words.len() > 0 {
        assert(is_word(words[0]));
        lemma_joined_begins(words, seq![' ']);
        assert(seq![text[0]] + text.skip(1) =~= text);
    }
}

proof fn lemma_capitalized_word(word: Text)
    requires
        is_word(word),
        raises_for_good(word[0]),
    ensures
        is_word(capitalized(word)),
        upper(capitalized(word)[0]) == seq![capitalized(word)[0]],
{
    let raised = upper(word[0]);
    let whole = capitalized(word);
    assert(is_wordly(word[0]));
    assert forall|i: int| 0 <= i < whole.len() implies is_wordly(#[trigger] whole[i]) by {
        if i < raised.len() {
            assert(whole[i] == raised[i]);
        } else {
            assert(whole[i] == word[i - raised.len() + 1]);
        }
    }
    assert(whole[0] == raised[0]);
}

proof fn lemma_identity_part(value: Text)
    ensures
        !identity_part(value).contains(':'),
{
    lemma_first_place(value, ':');
    if value.contains(':') {
        lemma_first_place(value.skip(first_place(value, ':') + 1), ':');
    }
}

/// Whether a word of an identifier is one that is capitalized: every word in a
/// chain of parts, and otherwise the first.
pub open spec fn is_raised(value: Text, place: int) -> bool {
    0 <= place < name_words(value).len() && (value.contains(':') || place == 0)
}

proof fn lemma_ascii_raises_for_good(letter: char)
    requires
        letter as u32 <= 0x7f,
    ensures
        raises_for_good(letter),
{
}

/// What a person reads of an identifier reads the same when it is taken for an
/// identifier itself, wherever raising the letters that begin its capitalized
/// words to upper case is final.
pub proof fn law_humanizing_twice_changes_nothing(value: Text)
    ensures
        (forall|i: int|
            #[trigger]
            is_raised(value, i) ==> raises_for_good(name_words(value)[i][0])) ==> humanized(
            humanized(value),
        ) == humanized(value),
{
    if forall|i: int| #[trigger]
        is_raised(value, i) ==> raises_for_good(name_words(value)[i][0]) {
        let words = name_words(value);
        lemma_identity_part(value);
        lemma_words_of(identity_part(value));
        assert(all_words(words));
        let raised = if value.contains(':') {
            all_capitalized(words)
        } else if words.len() > 0 {
            words.update(0, capitalized(words[0]))
        } else {
            words
        };
        if words.len() > 0 {
            assert(is_word(words[0]));
            lemma_joined_begins(words, seq![' ']);
        }
        assert forall|i: int| 0 <= i < raised.len() implies is_word(#[trigger] raised[i]) by {
            assert(is_word(words[i]));
            if is_raised(value, i) {
                lemma_capitalized_word(words[i]);
            }
        }
        if raised.len() > 0 {
            assert(is_raised(value, 0));
            assert(is_word(words[0]));
            lemma_capitalized_word(words[0]);
        }
        assert(humanized(value) == joined(raised, seq![' ']));
        lemma_settled(raised);
    }
}

/// An identifier whose capitalized words begin with ASCII characters is turned
/// into words that read the same when they are taken for an identifier.
pub proof fn law_humanizing_ascii_twice_changes_nothing(value: Text)
    requires
        forall|i: int| #[trigger]
            is_raised(value, i) ==> name_words(value)[i][0] as u32 <= 0x7f,
    ensures
        humanized(humanized(value)) == humanized(value),
{
    assert forall|i: int| #[trigger] is_raised(value, i) implies raises_for_good(
        name_words(value)[i][0],
    ) by {
        lemma_ascii_raises_for_good(name_words(value)[i][0]);
    }
    law_humanizing_twice_changes_nothing(value);
}

/// Turns an identifier into words that a person reads.
pub fn humanize_identifier(value: &str) -> (text: String)
    ensures
        text@ == humanized(value@),
{
    let chars = chars_of(value);
    proof {
        reveal_strlit(" ");
        assert(" "@ =~= seq![' ']);
    }
    let colon: usize = find_char(&chars, 0, ':');
    proof {
        assert(chars@.skip(0) =~= chars@);
        lemma_first_place(value@, ':');
    }
    if colon < chars.len() {
        proof {
            assert(value@.contains(':'));
        }
        let end: usize = find_char(&chars, colon + 1, ':');
        let identity = string_between(&chars, colon + 1, end);
        proof {
            let rest = value@.skip(colon + 1);
            lemma_first_place(rest, ':');
            assert(identity@ =~= rest.take(first_place(rest, ':')));
        }
        let words = split_words(identity.as_str(), Breaks::Identifier);
        let mut raised: Vec<String> = Vec::new();
        let mut next: usize = 0;
        while next < words.len()
            invariant
                next <= words@.len(),
                raised@.len() == next,
                forall|i: int|
                    0 <= i < next ==> (#[trigger] raised@[i])@ == capitalized(words@[i]@),
            decreases words@.len() - next,
        {
            raised.push(capitalize(words[next].as_str()));
            next += 1;
        }
        proof {
            assert(texts(raised@) =~= all_capitalized(texts(words@)));
        }
        join(&raised, " ")
    } else {
        proof {
            assert(!value@.contains(':'));
        }
        let words = split_words(value, Breaks::Identifier);
        capitalize(join(&words, " ").as_str())
    }
}

/// Whether a text begins with a prefix.
pub open spec fn begins_with(text: Text, prefix: Text) -> bool {
    prefix.len() <= text.len() && text.take(prefix.len() as int) == prefix
}

/// Whether `part` stands at place `from` of a text.
pub open spec fn stands_at(text: Text, part: Text, from: int) -> bool {
    0 <= from && from + part.len() <= text.len() && text.subrange(from, from + part.len()) == part
}

/// Whether a text holds another as one stretch.
pub open spec fn holds(text: Text, part: Text) -> bool {
    exists|from: int| stands_at(text, part, from)
}

pub(crate) fn part_at(chars: &Vec<char>, part: &Vec<char>, from: usize) -> (found: bool)
    requires
        from + part@.len() <= chars@.len(),
    ensures
        found == stands_at(chars@, part@, from as int),
{
    let length: usize = chars.len();
    let mut next: usize = 0;
    while next < part.len()
        invariant
            next <= part@.len(),
            from + part@.len() <= chars@.len() == length,
            forall|i: int| 0 <= i < next ==> chars@[from + i] == part@[i],
        decreases part@.len() - next,
    {
        if chars[from + next] != part[next] {
            proof {
                assert(chars@.subrange(from as int, from + part@.len())[next as int]
                    != part@[next as int]);
            }
            return false;
        }
        next += 1;
    }
    proof {
        assert(chars@.subrange(from as int, from + part@.len()) =~= part@);
    }
    true
}

/// Takes a prefix off a text, if it begins with it.
pub fn strip_prefix(text: &str, prefix: &str) -> (rest: Option<String>)
    ensures
        text_of(rest) == stripped(text@, prefix@),
{
    let chars = chars_of(text);
    let lead = chars_of(prefix);
    if lead.len() <= chars.len() && part_at(&chars, &lead, 0) {
        let rest = string_between(&chars, lead.len(), chars.len());
        proof {
            assert(text@.take(prefix@.len() as int) =~= text@.subrange(0, prefix@.len() as int));
            assert(rest@ =~= text@.skip(prefix@.len() as int));
        }
        Some(rest)
    } else {
        proof {
            if prefix@.len() <= text@.len() {
                assert(text@.take(prefix@.len() as int) =~= text@.subrange(
                    0,
                    prefix@.len() as int,
                ));
            }
        }
        None
    }
}

/// What follows a prefix in a text that begins with it.
pub open spec fn stripped(text: Text, prefix: Text) -> Option<Text> {
    if begins_with(text, prefix) {
        Some(text.skip(prefix.len() as int))
    } else {
        None
    }
}

/// Whether one text stands somewhere in another.
pub fn contains_text(text: &str, part: &str) -> (found: bool)
    ensures
        found == holds(text@, part@),
{
    let chars = chars_of(text);
    let wanted = chars_of(part);
    if wanted.len() > chars.len() {
        return false;
    }
    let last: usize = chars.len() - wanted.len();
    let mut from: usize = 0;
    while from <= last
        invariant
            from <= last + 1,
            last + wanted@.len() == chars@.len(),
            chars@ == text@,
            wanted@ == part@,
            forall|i: int| 0 <= i < from ==> !stands_at(text@, part@, i),
        decreases last + 1 - from,
    {
        if part_at(&chars, &wanted, from) {
            return true;
        }
        if from == last {
            return false;
        }
        from += 1;
    }
    false
}

/// A character with an ASCII capital turned into its small letter.
pub open spec fn ascii_lower(letter: char) -> char {
    if 'A' <= letter <= 'Z' {
        (letter as u32 + 32) as char
    } else {
        letter
    }
}

/// A text with every ASCII capital turned into its small letter.
pub open spec fn ascii_lowered(text: Text) -> Text {
    Seq::new(text.len(), |i: int| ascii_lower(text[i]))
}

/// Turns every ASCII capital into its small letter.
pub fn ascii_lowercase(text: &str) -> (lowered: String)
    ensures
        lowered@ == ascii_lowered(text@),
{
    let chars = chars_of(text);
    let mut lowered = String::new();
    let mut next: usize = 0;
    while next < chars.len()
        invariant
            next <= chars@.len(),
            chars@ == text@,
            lowered@ == ascii_lowered(text@).take(next as int),
        decreases chars@.len() - next,
    {
        let letter = chars[next];
        let small = if 'A' <= letter && letter <= 'Z' {
            (letter as u8 + 32) as char
        } else {
            letter
        };
        lowered.push(small);
        next += 1;
        proof {
            assert(lowered@ =~= ascii_lowered(text@).take(next as int));
        }
    }
    proof {
        assert(ascii_lowered(text@).take(text@.len() as int) =~= ascii_lowered(text@));
    }
    lowered
}

/// Whether a character is a decimal digit.
pub open spec fn is_digit(letter: char) -> bool {
    '0' <= letter <= '9'
}

/// The number that a run of decimal digits denotes.
pub open spec fn digits_value(digits: Text) -> nat
    decreases digits.len(),
{
    if digits.len() == 0 {
        0
    } else {
        (digits_value(digits.drop_last()) * 10 + (digits.last() as u32 - 48)) as nat
    }
}

/// A text without one leading plus sign.
pub open spec fn unsigned_part(text: Text) -> Text {
    if text.len() > 0 && text[0] == '+' {
        text.skip(1)
    } else {
        text
    }
}

/// The number below 65536 that a text denotes: an optional plus sign, then one
/// or more decimal digits and nothing else.
pub open spec fn number_in(text: Text) -> Option<nat> {
    let digits = unsigned_part(text);
    if digits.len() > 0 && (forall|i: int| 0 <= i < digits.len() ==> is_digit(digits[i]))
        && digits_value(digits) < 65536 {
        Some(digits_value(digits))
    } else {
        None
    }
}

proof fn lemma_digits_grow(digits: Text, upto: int)
    requires
        0 <= upto <= digits.len(),
        forall|i: int| 0 <= i < digits.len() ==> is_digit(digits[i]),
    ensures
        digits_value(digits.take(upto)) <= digits_value(digits),
    decreases digits.len() - upto,
{
    if upto == digits.len() {
        assert(digits.take(upto) =~= digits);
    } else {
        lemma_digits_grow(digits, upto + 1);
        let longer = digits.take(upto + 1);
        assert(longer.drop_last() =~= digits.take(upto));
        assert(is_digit(longer.last()));
    }
}

/// Reads a number below 65536.
pub fn parse_number(text: &str) -> (number: Option<u16>)
    ensures
        match number {
            Some(value) => number_in(text@) == Some(value as nat),
            None => number_in(text@) is None,
        },
{
    let chars = chars_of(text);
    let start: usize = if chars.len() > 0 && chars[0] == '+' {
        1
    } else {
        0
    };
    let ghost digits = unsigned_part(text@);
    proof {
        assert(digits =~= chars@.skip(start as int));
    }
    if start == chars.len() {
        return None;
    }
    let mut value: u32 = 0;
    let mut next: usize = start;
    proof {
        assert(digits.take(0) =~= Seq::empty());
    }
    while next < chars.len()
        invariant
            start <= next <= chars@.len(),
            start < chars@.len(),
            digits == chars@.skip(start as int),
            digits == unsigned_part(text@),
            value < 65536,
            value == digits_value(digits.take(next - start)),
            forall|i: int| 0 <= i < next - start ==> is_digit(digits[i]),
        decreases chars@.len() - next,
    {
        let letter = chars[next];
        proof {
            assert(digits[next - start] == letter);
        }
        if letter < '0' || letter > '9' {
            return None;
        }
        let digit: u32 = letter as u32 - 48;
        let grown: u32 = value * 10 + digit;
        proof {
            let longer = digits.take(next + 1 - start);
            assert(longer.drop_last() =~= digits.take(next - start));
            assert(longer.last() == letter);
            assert(digits_value(longer) == grown);
            if grown >= 65536 {
                if forall|i: int| 0 <= i < digits.len() ==> is_digit(digits[i]) {
                    lemma_digits_grow(digits, next + 1 - start);
                }
            }
        }
        if grown >= 65536 {
            return None;
        }
        value = grown;
        next += 1;
    }
    proof {
        assert(digits.take(digits.len() as int) =~= digits);
    }
    Some(value as u16)
}

/// A text without the percent signs that it ends in.
pub open spec fn without_percent(text: Text) -> Text
    decreases text.len(),
{
    if text.len() > 0 && text.last() == '%' {
        without_percent(text.drop_last())
    } else {
        text
    }
}

/// Takes every trailing percent sign off a text.
pub fn trim_percent(text: &str) -> (trimmed: String)
    ensures
        trimmed@ == without_percent(text@),
{
    let chars = chars_of(text);
    let mut end: usize = chars.len();
    proof {
        assert(text@.take(end as int) =~= text@);
    }
    while end > 0 && chars[end - 1] == '%'
        invariant
            end <= chars@.len(),
            chars@ == text@,
            without_percent(text@.take(end as int)) == without_percent(text@),
        decreases end,
    {
        proof {
            assert(text@.take(end as int).drop_last() =~= text@.take(end - 1));
        }
        end -= 1;
    }
    let trimmed = string_between(&chars, 0, end);
    proof {
        assert(trimmed@ =~= text@.take(end as int));
    }
    trimmed
}

/// Whether one text stands before another in the order of code points.
pub open spec fn precedes(left: Text, right: Text) -> bool
    decreases left.len(),
{
    if right.len() == 0 {
        false
    } else if left.len() == 0 {
        true
    } else if left[0] == right[0] {
        precedes(left.skip(1), right.skip(1))
    } else {
        left[0] < right[0]
    }
}

proof fn lemma_precedes_from(left: Text, right: Text, from: int)
    requires
        0 <= from <= left.len(),
        from <= right.len(),
        forall|i: int| 0 <= i < from ==> left[i] == right[i],
    ensures
        precedes(left, right) == precedes(left.skip(from), right.skip(from)),
    decreases from,
{
    if from == 0 {
        assert(left.skip(0) =~= left);
        assert(right.skip(0) =~= right);
    } else {
        lemma_precedes_from(left.skip(1), right.skip(1), from - 1);
        assert(left.skip(1).skip(from - 1) =~= left.skip(from));
        assert(right.skip(1).skip(from - 1) =~= right.skip(from));
        assert(left[0] == right[0]);
    }
}

/// The order of code points decides between any two different texts, and only
/// one way.
pub proof fn law_text_order_is_total(left: Text, right: Text)
    ensures
        left == right ==> !precedes(left, right),
        left != right ==> precedes(left, right) != precedes(right, left),
    decreases left.len(),
{
    if left.len() > 0 && right.len() > 0 && left[0] == right[0] {
        law_text_order_is_total(left.skip(1), right.skip(1));
        if left != right {
            if left.skip(1) == right.skip(1) {
                assert(left.len() == right.len());
                assert forall|i: int| 0 <= i < left.len() implies left[i] == right[i] by {
                    if i > 0 {
                        assert(left[i] == left.skip(1)[i - 1]);
                        assert(right[i] == right.skip(1)[i - 1]);
                    }
                }
                assert(left =~= right);
            }
        }
    } else if left.len() == 0 && right.len() == 0 {
        assert(left =~= right);
    }
}

/// The order of code points carries over from neighbour to neighbour.
pub proof fn law_text_order_is_transitive(first: Text, second: Text, third: Text)
    requires
        precedes(first, second),
        precedes(second, third),
    ensures
        precedes(first, third),
    decreases first.len(),
{
    if first.len() > 0 && second.len() > 0 && third.len() > 0 {
        if first[0] == second[0] && second[0] == third[0] {
            law_text_order_is_transitive(first.skip(1), second.skip(1), third.skip(1));
        }
    }
}

/// Whether one text stands before another in the order of code points.
pub fn text_precedes(left: &str, right: &str) -> (before: bool)
    ensures
        before == precedes(left@, right@),
{
    let first = chars_of(left);
    let second = chars_of(right);
    let mut next: usize = 0;
    while next < first.len() && next < second.len() && first[next] == second[next]
        invariant
            next <= first@.len(),
            next <= second@.len(),
            forall|i: int| 0 <= i < next ==> first@[i] == second@[i],
        decreases first@.len() - next,
    {
        next += 1;
    }
    proof {
        lemma_precedes_from(first@, second@, next as int);
    }
    if next == second.len() {
        false
    } else if next == first.len() {
        true
    } else {
        first[next] < second[next]
    }
}

/// The name of an input action as a person reads it.
pub open spec fn action_name(action: Text) -> Text {
    if action == "SafeReturn"@ {
        "Safe Return"@
    } else if begins_with(action, "Move."@) {
        "Move "@ + action.skip("Move."@.len() as int)
    } else {
        action
    }
}

/// Names an input action.
pub fn action_label(action: &str) -> (label: String)
    ensures
        label@ == action_name(action@),
{
    if same_text(action, "SafeReturn") {
        return "Safe Return".to_owned();
    }
    match strip_prefix(action, "Move.") {
        Some(direction) => cat("Move ", direction.as_str()),
        None => action.to_owned(),
    }
}

/// The place of the last white space of a text, or -1.
pub open spec fn last_space(text: Text) -> int
    decreases text.len(),
{
    if text.len() == 0 {
        -1
    } else if is_space(text.last()) {
        text.len() - 1
    } else {
        last_space(text.drop_last())
    }
}

/// A text cut before its last white space, if it has one.
pub open spec fn cut_at_word(text: Text) -> Text {
    if last_space(text) >= 0 {
        text.take(last_space(text))
    } else {
        text
    }
}

/// A text that fits into `cells` character cells: the whole text, or its first
/// words and an ellipsis, for which one cell is kept.
pub open spec fn ellipsized(text: Text, cells: int) -> Text {
    if text.len() <= cells {
        text
    } else {
        cut_at_word(text.take(if cells >= 1 { cells - 1 } else { 0 })).push('…')
    }
}

pub proof fn lemma_last_space_bounds(text: Text)
    ensures
        -1 <= last_space(text) < text.len(),
    decreases text.len(),
{
    if text.len() > 0 && !is_space(text.last()) {
        lemma_last_space_bounds(text.drop_last());
    }
}

/// An ellipsized text never needs more cells than there are, as long as there
/// is one for the ellipsis.
pub proof fn law_ellipsized_text_fits(text: Text, cells: int)
    requires
        cells >= 1,
    ensures
        ellipsized(text, cells).len() <= cells,
{
    if text.len() > cells {
        lemma_last_space_bounds(text.take(cells - 1));
    }
}

/// Cuts a text so that it fits into `cells` character cells.
pub fn ellipsize_to_cells(text: &str, cells: i64) -> (cut: String)
    ensures
        cut@ == ellipsized(text@, cells as int),
{
    let chars = chars_of(text);
    if cells >= 0 && (cells as u64 >= chars.len() as u64) {
        return text.to_owned();
    }
    let kept: usize = if cells >= 1 {
        (cells - 1) as usize
    } else {
        0
    };
    let ghost start = text@.take(kept as int);
    let mut end: usize = kept;
    proof {
        assert(start.take(end as int) =~= start);
    }
    while end > 0 && !whitespace(chars[end - 1])
        invariant
            end <= kept <= chars@.len(),
            chars@ == text@,
            start == text@.take(kept as int),
            last_space(start.take(end as int)) == last_space(start),
        decreases end,
    {
        proof {
            assert(start.take(end as int).drop_last() =~= start.take(end - 1));
        }
        end -= 1;
    }
    let keep: usize = if end > 0 {
        end - 1
    } else {
        kept
    };
    let mut cut = string_between(&chars, 0, keep);
    proof {
        assert(cut@ =~= cut_at_word(start));
    }
    cut.push('…');
    cut
}

} // verus!
