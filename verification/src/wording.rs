//! How names and texts are put: identifiers as words, texts cut to fit, and
//! pictures by the digest of their bytes.

use crate::art::{
    digest_image, fade_pixels, fnv_hash, hex_text, treatment_of, wifi_covers, ArtTreatment,
};
use crate::cards::{one_line, own_id, plate_art};
use crate::catalog::ItemModel;
use crate::cutting::{blank, last_part_place};
use crate::motifs::composition_of;
use crate::scene::{NodeModel, PlateArt, PlateGround, Role, Token};
use crate::stage::{focus_owner, name_node, tells, wants_name};
use crate::text::{
    all_capitalized, all_words, ascii_lowered, capitalized, closed_words, ellipsized, humanized,
    identity_part, is_space, is_word, is_wordly, joined, last_space, lemma_first_place_is,
    lemma_joined_begins, lemma_last_space_bounds, lemma_word_behind, open_word, stands_at, upper, words_in,
    Breaks, Text,
};
use vstd::prelude::*;
use vstd::string::*;

verus! {

/// Capitalizing a word raises its first letter where that is one from `a` to `z`
/// and leaves the rest; other ASCII characters at its start stay too.
pub proof fn law_words_are_capitalized(word: Text)
    requires
        word.len() > 0,
    ensures
        'a' <= word[0] <= 'z' ==> capitalized(word) == seq![(word[0] as u32 - 32) as u8 as char]
            + word.skip(1),
        (word[0] as u32) < 0x80 && !('a' <= word[0] <= 'z') ==> capitalized(word) == word,
{
    if (word[0] as u32) < 0x80 && !('a' <= word[0] <= 'z') {
        lemma_upper(word[0]);
        assert(upper(word[0]) == seq![word[0]]);
        assert(seq![word[0]] + word.skip(1) =~= word);
    }
}

proof fn lemma_upper(letter: char)
    requires
        (letter as u32) < 0x80,
        !('a' <= letter <= 'z'),
    ensures
        upper(letter) == seq![letter],
{
}

/// Whether a character parts the words of an identifier.
pub open spec fn parts_words(letter: char) -> bool {
    letter == '-' || letter == '_' || letter == '.' || letter == '/' || letter == ' '
}

/// Whether a text is made of Latin letters and digits alone, and of at least one.
pub open spec fn is_plain(word: Text) -> bool {
    &&& word.len() > 0
    &&& forall|i: int|
        0 <= i < word.len() ==> {
            let letter = #[trigger] word[i];
            'a' <= letter <= 'z' || 'A' <= letter <= 'Z' || '0' <= letter <= '9'
        }
}

proof fn lemma_plain_words(words: Seq<Text>)
    requires
        forall|i: int| 0 <= i < words.len() ==> is_plain(#[trigger] words[i]),
    ensures
        all_words(words),
{
    assert forall|i: int| 0 <= i < words.len() implies is_word(#[trigger] words[i]) by {
        let word = words[i];
        assert(is_plain(word));
        assert forall|k: int| 0 <= k < word.len() implies is_wordly(#[trigger] word[k]) by {}
    }
}

proof fn lemma_words_come_apart(words: Seq<Text>, letter: char)
    requires
        all_words(words),
        parts_words(letter),
    ensures
        words_in(joined(words, seq![letter]), Breaks::Identifier) == words,
        forall|i: int|
            0 <= i < joined(words, seq![letter]).len() ==> (#[trigger] joined(
                words,
                seq![letter],
            )[i]) != ':',
    decreases words.len(),
{
    let text = joined(words, seq![letter]);
    if words.len() == 0 {
        assert(words_in(text, Breaks::Identifier) =~= words);
    } else if words.len() == 1 {
        assert(is_word(words[0]));
        lemma_word_behind(Seq::empty(), words[0]);
        assert(Seq::<char>::empty() + words[0] =~= words[0]);
        assert(words_in(text, Breaks::Identifier) =~= words);
        assert forall|i: int| 0 <= i < text.len() implies (#[trigger] text[i]) != ':' by {
            assert(is_wordly(words[0][i]));
        }
    } else {
        let shorter = words.drop_last();
        let word = words.last();
        assert(is_word(words[words.len() - 1]));
        assert forall|i: int| 0 <= i < shorter.len() implies is_word(#[trigger] shorter[i]) by {
            assert(shorter[i] == words[i]);
        }
        lemma_words_come_apart(shorter, letter);
        let before = joined(shorter, seq![letter]);
        let parted = before + seq![letter];
        assert(parted.drop_last() =~= before);
        assert(parted.last() == letter);
        assert(closed_words(parted, Breaks::Identifier) == shorter);
        assert(open_word(parted, Breaks::Identifier) =~= Seq::empty());
        lemma_word_behind(parted, word);
        assert(Seq::<char>::empty() + word =~= word);
        assert(shorter.push(word) =~= words);
        assert forall|i: int| 0 <= i < text.len() implies (#[trigger] text[i]) != ':' by {
            if i < before.len() {
                assert(text[i] == before[i]);
            } else if i > before.len() {
                assert(is_wordly(word[i - before.len() - 1]));
            }
        }
    }
}

/// An identifier of plain words reads as those words with a space between them, the
/// first one capitalized, whichever of the usual characters parts them.
pub proof fn law_identifiers_read_as_words(words: Seq<Text>, letter: char)
    requires
        words.len() > 0,
        forall|i: int| 0 <= i < words.len() ==> is_plain(#[trigger] words[i]),
        parts_words(letter),
    ensures
        humanized(joined(words, seq![letter])) == joined(
            words.update(0, capitalized(words[0])),
            seq![' '],
        ),
{
    let text = joined(words, seq![letter]);
    lemma_plain_words(words);
    lemma_words_come_apart(words, letter);
    assert(!text.contains(':'));
    assert(is_plain(words[0]));
    lemma_joined_begins(words, seq![' ']);
}

/// Of an identifier that is a chain of parts, the part behind the first colon is
/// read, up to the next one, with every word capitalized.
pub proof fn law_chains_read_by_their_second_part(
    lead: Text,
    words: Seq<Text>,
    letter: char,
    tail: Text,
)
    requires
        forall|i: int| 0 <= i < lead.len() ==> #[trigger] lead[i] != ':',
        forall|i: int| 0 <= i < words.len() ==> is_plain(#[trigger] words[i]),
        parts_words(letter),
    ensures
        humanized(lead + seq![':'] + joined(words, seq![letter])) == joined(
            all_capitalized(words),
            seq![' '],
        ),
        humanized(lead + seq![':'] + joined(words, seq![letter]) + seq![':'] + tail) == joined(
            all_capitalized(words),
            seq![' '],
        ),
{
    let part = joined(words, seq![letter]);
    lemma_plain_words(words);
    lemma_words_come_apart(words, letter);
    let short = lead + seq![':'] + part;
    let long = short + seq![':'] + tail;
    assert(short[lead.len() as int] == ':');
    assert(long[lead.len() as int] == ':');
    lemma_first_place_is(short, ':', lead.len() as int);
    lemma_first_place_is(long, ':', lead.len() as int);
    let rest = short.skip(lead.len() as int + 1);
    let rest_long = long.skip(lead.len() as int + 1);
    assert(rest =~= part);
    assert(rest_long =~= part + seq![':'] + tail);
    lemma_first_place_is(rest, ':', part.len() as int);
    lemma_first_place_is(rest_long, ':', part.len() as int);
    assert(identity_part(short) =~= part);
    assert(identity_part(long) =~= part);
}

proof fn lemma_last_space(text: Text)
    ensures
        last_space(text) >= 0 ==> is_space(text[last_space(text)]),
        forall|i: int| last_space(text) < i < text.len() ==> !is_space(#[trigger] text[i]),
    decreases text.len(),
{
    if text.len() > 0 && !is_space(text.last()) {
        let shorter = text.drop_last();
        lemma_last_space(shorter);
        lemma_last_space_bounds(shorter);
        assert forall|i: int| last_space(text) < i < text.len() implies !is_space(
            #[trigger] text[i],
        ) by {
            if i < shorter.len() {
                assert(shorter[i] == text[i]);
            }
        }
    }
}

/// A text that fits stays as it is. One that does not is cut to the beginning that
/// fits, at the end of a word where it has one there, with an ellipsis behind it.
pub proof fn law_texts_are_cut_at_words(text: Text, cells: int)
    ensures
        text.len() <= cells ==> ellipsized(text, cells) == text,
        text.len() > cells ==> {
            let cut = ellipsized(text, cells);
            let kept = cut.len() - 1;
            let room = if cells >= 1 {
                cells - 1
            } else {
                0
            };
            &&& cut.last() == '…'
            &&& 0 <= kept <= room
            &&& forall|i: int| 0 <= i < kept ==> #[trigger] cut[i] == text[i]
            &&& kept < room ==> is_space(text[kept]) && forall|i: int|
                kept < i < room ==> !is_space(#[trigger] text[i])
            &&& kept == room ==> forall|i: int| 0 <= i < room ==> !is_space(#[trigger] text[i])
        },
{
    if text.len() > cells {
        let room = if cells >= 1 {
            cells - 1
        } else {
            0
        };
        let start = text.take(room);
        lemma_last_space(start);
        lemma_last_space_bounds(start);
        let cut = ellipsized(text, cells);
        let kept = cut.len() - 1;
        assert forall|i: int| 0 <= i < kept implies #[trigger] cut[i] == text[i] by {}
        assert forall|i: int| kept < i < room implies !is_space(#[trigger] text[i]) by {
            assert(start[i] == text[i]);
        }
        if kept == room {
            assert forall|i: int| 0 <= i < room implies !is_space(#[trigger] text[i]) by {
                assert(start[i] == text[i]);
            }
        } else {
            assert(start[kept] == text[kept]);
        }
    }
}

/// The value of a hexadecimal digit.
pub open spec fn hex_value(letter: char) -> int {
    if '0' <= letter <= '9' {
        letter as int - 48
    } else if 'a' <= letter <= 'f' {
        letter as int - 87
    } else {
        -1
    }
}

/// A picture of the catalog is known by its digest: `sha256:` and, for each byte of
/// the digest, two hexadecimal digits in small letters.
pub proof fn law_pictures_are_known_by_their_digest(digest: Seq<u8>, bytes: Seq<u8>, place: int)
    requires
        0 <= place < digest.len(),
    ensures
        ({
            let image = digest_image(digest, bytes);
            let at = 7 + 2 * place;
            &&& image.bytes == bytes
            &&& image.id.len() == 7 + 2 * digest.len()
            &&& image.id.take(7) == "sha256:"@
            &&& 16 * hex_value(image.id[at]) + hex_value(image.id[at + 1]) == digest[place]
            &&& 0 <= hex_value(image.id[at]) < 16
            &&& 0 <= hex_value(image.id[at + 1]) < 16
        }),
{
    reveal_strlit("sha256:");
    lemma_hex(digest, place);
    let id = digest_image(digest, bytes).id;
    assert(id.take(7) =~= "sha256:"@);
    assert(id[7 + 2 * place] == hex_text(digest)[2 * place]);
    assert(id[7 + 2 * place + 1] == hex_text(digest)[2 * place + 1]);
}

proof fn lemma_hex(digest: Seq<u8>, place: int)
    ensures
        hex_text(digest).len() == 2 * digest.len(),
        0 <= place < digest.len() ==> {
            let text = hex_text(digest);
            &&& 16 * hex_value(text[2 * place]) + hex_value(text[2 * place + 1]) == digest[place]
            &&& 0 <= hex_value(text[2 * place]) < 16
            &&& 0 <= hex_value(text[2 * place + 1]) < 16
        },
    decreases digest.len(),
{
    if digest.len() > 0 {
        let shorter = digest.drop_last();
        lemma_hex(shorter, place);
        let text = hex_text(digest);
        let before = hex_text(shorter);
        if 0 <= place < shorter.len() {
            assert(text[2 * place] == before[2 * place]);
            assert(text[2 * place + 1] == before[2 * place + 1]);
        }
    }
}

/// The name that is added below a node says what the node says, one step deeper,
/// and has the focus with it, unless the node is itself a text.
pub proof fn law_added_names_repeat_their_node(node: NodeModel)
    requires
        node.depth < usize::MAX,
    ensures
        name_node(node).label == node.label,
        name_node(node).id == "action-name-"@ + node.id,
        name_node(node).depth == node.depth + 1,
        name_node(node).role == Role::Text,
        name_node(node).action is None,
        node.role != Role::Text ==> name_node(node).state == node.state,
        node.role == Role::Text ==> !name_node(node).state.focused,
{
}

/// Latin capitals become small letters and every other character stays.
pub proof fn law_latin_letters_are_lowered(text: Text, place: int)
    requires
        0 <= place < text.len(),
    ensures
        ascii_lowered(text).len() == text.len(),
        'A' <= text[place] <= 'Z' ==> ascii_lowered(text)[place] == (text[place] as u32
            + 32) as char,
        !('A' <= text[place] <= 'Z') ==> ascii_lowered(text)[place] == text[place],
{
}

/// The fade at the foot of the library has one colour and grows denser from row to
/// row, up to the last one, which covers.
pub proof fn law_the_fade_grows_denser(width: int, row: int, column: int)
    requires
        0 < width,
        0 <= row < 96,
        0 <= column < width,
    ensures
        ({
            let pixels = fade_pixels(width);
            let at = (row * width + column) * 4;
            &&& pixels.len() == width * 96 * 4
            &&& 0 <= at
            &&& at + 3 < pixels.len()
            &&& pixels[at] == 0x17
            &&& pixels[at + 1] == 0x15
            &&& pixels[at + 2] == 0x12
            &&& pixels[at + 3] as int == (row + 1) * 255 / 96
        }),
        (95int + 1) * 255 / 96 == 255,
{
    let at = (row * width + column) * 4;
    assert(0 <= at && at + 3 < width * 96 * 4) by (nonlinear_arith)
        requires
            0 < width,
            0 <= row < 96,
            0 <= column < width,
            at == (row * width + column) * 4,
    ;
    let line = width * 4;
    assert(at + 3 == row * line + (column * 4 + 3)) by (nonlinear_arith)
        requires
            at == (row * width + column) * 4,
            line == width * 4,
    ;
    vstd::arithmetic::div_mod::lemma_fundamental_div_mod_converse(
        at + 3,
        line,
        row,
        column * 4 + 3,
    );
    assert(0 <= (row + 1) * 255 / 96 <= 255);
}

/// The glyph of a wireless network is the same from the left and from the right.
pub proof fn law_the_wireless_glyph_is_even(x: int, y: int)
    ensures
        wifi_covers(23 - x, y) == wifi_covers(x, y),
{
    assert(2 * (23 - x) - 23 == 23 - 2 * x);
}

/// The owner of the focus is the first node that has it, and there is one where any
/// node has it.
pub proof fn law_the_first_node_in_focus_owns_it(nodes: Seq<NodeModel>)
    ensures
        focus_owner(nodes) is Some == exists|i: int|
            0 <= i < nodes.len() && (#[trigger] nodes[i]).state.focused,
        focus_owner(nodes) matches Some(id) ==> exists|i: int|
            {
                &&& 0 <= i < nodes.len()
                &&& (#[trigger] nodes[i]).state.focused
                &&& nodes[i].id == id
                &&& forall|k: int| 0 <= k < i ==> !(#[trigger] nodes[k]).state.focused
            },
    decreases nodes.len(),
{
    if nodes.len() > 0 {
        let rest = nodes.skip(1);
        if nodes[0].state.focused {
        } else {
            law_the_first_node_in_focus_owns_it(rest);
            if let Some(id) = focus_owner(rest) {
                let i = choose|i: int|
                    {
                        &&& 0 <= i < rest.len()
                        &&& (#[trigger] rest[i]).state.focused
                        &&& rest[i].id == id
                        &&& forall|k: int| 0 <= k < i ==> !(#[trigger] rest[k]).state.focused
                    };
                assert(nodes[i + 1].state.focused);
                assert forall|k: int| 0 <= k < i + 1 implies !(#[trigger] nodes[k]).state.focused by {
                    if k > 0 {
                        assert(!rest[k - 1].state.focused);
                    }
                }
            } else {
                assert forall|i: int| 0 <= i < nodes.len() implies !(#[trigger] nodes[i]).state.focused by {
                    if i > 0 {
                        assert(!rest[i - 1].state.focused);
                    }
                }
            }
        }
    }
}

/// Whether one node stands below another, in their order.
pub open spec fn stands_below(nodes: Seq<NodeModel>, outer: int, inner: int) -> bool {
    outer < inner && forall|i: int|
        outer < i <= inner ==> (#[trigger] nodes[i]).depth > nodes[outer].depth
}

/// A node wants a name of its own where it can be chosen and has words, and where
/// no text or heading with words stands below it and within it.
pub proof fn law_nodes_without_shown_words_want_a_name(
    nodes: Seq<NodeModel>,
    within: Seq<(usize, usize)>,
    place: int,
    to: int,
    inner: int,
    pair: int,
)
    requires
        0 <= place < to <= nodes.len(),
    ensures
        nodes[place].action is None ==> !wants_name(nodes, within, place, to),
        blank(nodes[place].label) ==> !wants_name(nodes, within, place, to),
        ({
            &&& place < inner < to
            &&& stands_below(nodes, place, inner)
            &&& nodes[inner].role == Role::Text || nodes[inner].role == Role::Heading
            &&& !blank(nodes[inner].label)
            &&& 0 <= pair < within.len()
            &&& within[pair].0 == place
            &&& within[pair].1 == inner
        }) ==> !wants_name(nodes, within, place, to),
        ({
            &&& nodes[place].action is Some
            &&& !blank(nodes[place].label)
            &&& forall|i: int|
                place < i < to && (#[trigger] nodes[i]).depth > nodes[place].depth
                    ==> nodes[i].role != Role::Text && nodes[i].role != Role::Heading
        }) ==> wants_name(nodes, within, place, to),
{
    if place < inner < to && stands_below(nodes, place, inner) && 0 <= pair < within.len()
        && within[pair].0 == place && within[pair].1 == inner && (nodes[inner].role == Role::Text
        || nodes[inner].role == Role::Heading) && !blank(nodes[inner].label) {
        assert(tells(nodes, within, place, inner));
    }
    if nodes[place].action is Some && !blank(nodes[place].label) && (forall|i: int|
        place < i < to && (#[trigger] nodes[i]).depth > nodes[place].depth ==> nodes[i].role
            != Role::Text && nodes[i].role != Role::Heading) {
        assert forall|i: int| i < to implies !#[trigger] tells(nodes, within, place, i) by {
            if tells(nodes, within, place, i) {
                assert(nodes[i].depth > nodes[place].depth);
            }
        }
    }
}

/// The titles that have a composition of their own stand on their own ground; any
/// other stands on one of six, by the hash of its own name, and under a scrim.
pub proof fn law_compositions_stand_on_their_ground(own: Text)
    ensures
        composition_of("ridgeline"@).ground == PlateGround::A,
        composition_of("hollow-tides"@).ground == PlateGround::B,
        composition_of("sunwake"@).ground == PlateGround::C,
        composition_of("glass-harbor"@).ground == PlateGround::D,
        composition_of("lantern-vale"@).ground == PlateGround::E,
        composition_of("paper-comet"@).ground == PlateGround::F,
        (own != "ridgeline"@ && own != "hollow-tides"@ && own != "sunwake"@ && own
            != "glass-harbor"@ && own != "lantern-vale"@ && own != "paper-comet"@) ==> {
            let hash = fnv_hash(vstd::utf8::encode_utf8(own));
            let made = composition_of(own);
            &&& hash % 6 == 0 ==> made.ground == PlateGround::A
            &&& hash % 6 == 1 ==> made.ground == PlateGround::B
            &&& hash % 6 == 2 ==> made.ground == PlateGround::C
            &&& hash % 6 == 3 ==> made.ground == PlateGround::D
            &&& hash % 6 == 4 ==> made.ground == PlateGround::E
            &&& hash % 6 == 5 ==> made.ground == PlateGround::F
            &&& made.layers.len() == 2
            &&& made.layers[0].token == Token::Scrim
        },
{
    reveal_strlit("ridgeline");
    reveal_strlit("hollow-tides");
    reveal_strlit("sunwake");
    reveal_strlit("glass-harbor");
    reveal_strlit("lantern-vale");
    reveal_strlit("paper-comet");
    assert("ridgeline"@[0] == 'r');
    assert("hollow-tides"@[0] == 'h');
    assert("sunwake"@[0] == 's');
    assert("glass-harbor"@[0] == 'g');
    assert("lantern-vale"@[0] == 'l');
    assert("paper-comet"@[0] == 'p');
}

/// At the plain size of the text a line is shown whole, and at any other cut to
/// fit.
pub proof fn law_lines_are_cut_where_the_text_is_larger(text: Text, cells: int, scale: int)
    ensures
        one_line(text, cells, 100) == text,
        scale != 100 ==> one_line(text, cells, scale) == ellipsized(text, cells),
{
}

/// A title without a picture has one of six palettes and one of six motifs, by the
/// hash of its id; one with a picture that was not rejected shows it.
pub proof fn law_titles_are_treated_by_their_picture(item: ItemModel)
    ensures
        item.art is Some && !item.art_failed ==> treatment_of(item) == ArtTreatment::CatalogArt,
        item.art is None || item.art_failed ==> {
            let hash = fnv_hash(vstd::utf8::encode_utf8(item.id)) as int;
            treatment_of(item) == (ArtTreatment::EditionPlate {
                palette: (hash % 6) as u8,
                motif: (hash / 6 % 6) as u8,
            })
        },
{
}

/// The hash of bytes is that of the bytes before the last one, changed by the last
/// one in its lowest bits and multiplied by a constant, as far as 64 bits reach.
pub proof fn law_hashes_take_byte_by_byte(bytes: Seq<u8>, last: u8)
    ensures
        fnv_hash(Seq::empty()) == 14_695_981_039_346_656_037,
        fnv_hash(bytes.push(last)) as int == ((fnv_hash(bytes) ^ (last as u64)) * 17_592_186_044_851)
            % 18_446_744_073_709_551_616,
{
    assert(bytes.push(last).drop_last() =~= bytes);
}

proof fn lemma_no_colon(id: Text, upto: int)
    requires
        upto <= id.len(),
        forall|i: int| 0 <= i < id.len() ==> #[trigger] id[i] != ':',
    ensures
        last_part_place(id, ":"@, upto) is None,
    decreases upto,
{
    reveal_strlit(":");
    if upto > 0 {
        if stands_at(id, ":"@, upto - 1) {
            assert(id.subrange(upto - 1, upto)[0] == ":"@[0]);
            assert(id[upto - 1] == ':');
        }
        lemma_no_colon(id, upto - 1);
    }
}

proof fn lemma_last_colon(lead: Text, name: Text, upto: int)
    requires
        lead.len() < upto <= lead.len() + 1 + name.len(),
        forall|i: int| 0 <= i < name.len() ==> #[trigger] name[i] != ':',
    ensures
        last_part_place(lead + seq![':'] + name, ":"@, upto) == Some(lead.len() as int),
    decreases upto,
{
    reveal_strlit(":");
    let id = lead + seq![':'] + name;
    assert(id.subrange(lead.len() as int, lead.len() as int + 1) =~= ":"@);
    if upto > lead.len() + 1 {
        if stands_at(id, ":"@, upto - 1) {
            assert(id.subrange(upto - 1, upto)[0] == ":"@[0]);
            assert(id[upto - 1] == name[upto - 1 - lead.len() - 1]);
        }
        lemma_last_colon(lead, name, upto - 1);
    }
}

/// The own name of a title is what stands behind the last colon of its id, or all
/// of it where there is none.
pub proof fn law_own_names_stand_behind_the_last_colon(lead: Text, name: Text)
    requires
        forall|i: int| 0 <= i < name.len() ==> #[trigger] name[i] != ':',
    ensures
        own_id(name) == name,
        own_id(lead + seq![':'] + name) == name,
{
    reveal_strlit(":");
    let id = lead + seq![':'] + name;
    lemma_no_colon(name, name.len() as int);
    lemma_last_colon(lead, name, id.len() as int);
    assert(id.skip(lead.len() as int + 1) =~= name);
}

/// Three titles have a plate of their own, and any other has one of three by the
/// hash of its own name.
pub proof fn law_plates_are_chosen_by_name(id: Text)
    ensures
        own_id(id) == "steam-link"@ ==> plate_art(id) == PlateArt::A,
        own_id(id) == "tidelines"@ ==> plate_art(id) == PlateArt::D,
        own_id(id) == "button-tester"@ ==> plate_art(id) == PlateArt::C,
        own_id(id) != "steam-link"@ && own_id(id) != "tidelines"@ && own_id(id)
            != "button-tester"@ ==> {
            let hash = fnv_hash(vstd::utf8::encode_utf8(own_id(id)));
            &&& hash % 3 == 0 ==> plate_art(id) == PlateArt::A
            &&& hash % 3 == 1 ==> plate_art(id) == PlateArt::D
            &&& hash % 3 == 2 ==> plate_art(id) == PlateArt::C
        },
{
    reveal_strlit("steam-link");
    reveal_strlit("tidelines");
    reveal_strlit("button-tester");
    assert("steam-link"@[0] == 's');
    assert("tidelines"@[0] == 't');
    assert("button-tester"@[0] == 'b');
}

} // verus!
