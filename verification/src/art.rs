//! Images: those of the catalog, the plates that stand in for them, and those
//! that the shell draws itself.

use crate::catalog::{ImageModel, ImageSource, ItemModel};
use crate::text::{cat, decimal, decimal_text, Text};
use sha2::Digest;
use vstd::prelude::*;
use vstd::string::*;
use vstd::utf8::encode_utf8;

verus! {

/// The SHA-256 digest of some bytes.
pub uninterp spec fn sha256_digest(bytes: Seq<u8>) -> Seq<u8>;

/// The file that `png::Encoder` writes for an image of a width and a height, with
/// four bytes for each pixel, row by row.
pub uninterp spec fn encoded_png(width: u32, height: u32, rgba: Seq<u8>) -> Seq<u8>;

/// Calls `sha2::Sha256::digest`. Claimed: the result depends on the bytes alone,
/// is the one that [`sha256_digest`] names, and has 32 bytes.
#[verifier::external_body]
pub(crate) fn sha256(bytes: &Vec<u8>) -> (digest: Vec<u8>)
    ensures
        digest@ == sha256_digest(bytes@),
        digest@.len() == 32,
{
    sha2::Sha256::digest(bytes).to_vec()
}

/// Calls `png::Encoder` with eight-bit RGBA on a buffer in memory. Claimed: the
/// file depends on the size and the pixels alone and is the one that
/// [`encoded_png`] names. Nothing is said of how the file holds the pixels. The
/// encoder fails only on an empty image, on a wrong number of bytes or when the
/// buffer cannot be written, and none of these can happen here.
#[verifier::external_body]
pub(crate) fn encode_rgba(width: u32, height: u32, rgba: &Vec<u8>) -> (file: Vec<u8>)
    requires
        width > 0,
        height > 0,
        rgba@.len() == width * height * 4,
    ensures
        file@ == encoded_png(width, height, rgba@),
{
    let mut file = Vec::new();
    let mut encoder = png::Encoder::new(&mut file, width, height);
    encoder.set_color(png::ColorType::Rgba);
    encoder.set_depth(png::BitDepth::Eight);
    let mut writer = encoder.write_header().expect("in-memory PNG header");
    writer.write_image_data(rgba).expect("in-memory PNG pixels");
    drop(writer);
    file
}

/// The hexadecimal digit for a number below sixteen.
pub open spec fn hex_digit(value: int) -> char {
    if value < 10 {
        (48 + value) as char
    } else {
        (87 + value) as char
    }
}

/// Bytes as two hexadecimal digits each, in small letters.
pub open spec fn hex_text(bytes: Seq<u8>) -> Text
    decreases bytes.len(),
{
    if bytes.len() == 0 {
        Seq::empty()
    } else {
        hex_text(bytes.drop_last()).push(hex_digit(bytes.last() as int / 16)).push(
            hex_digit(bytes.last() as int % 16),
        )
    }
}

fn hex_char(value: u8) -> (letter: char)
    requires
        value < 16,
    ensures
        letter == hex_digit(value as int),
{
    if value < 10 {
        (48 + value) as char
    } else {
        (87 + value) as char
    }
}

/// Writes bytes as two hexadecimal digits each.
pub fn write_hex(bytes: &Vec<u8>) -> (text: String)
    ensures
        text@ == hex_text(bytes@),
{
    let mut text = String::new();
    let mut next: usize = 0;
    proof {
        assert(text@ =~= hex_text(bytes@.take(0)));
    }
    while next < bytes.len()
        invariant
            next <= bytes@.len(),
            text@ == hex_text(bytes@.take(next as int)),
        decreases bytes@.len() - next,
    {
        let byte: u8 = bytes[next];
        proof {
            assert(bytes@.take(next + 1).drop_last() =~= bytes@.take(next as int));
            assert(bytes@.take(next + 1).last() == byte);
        }
        text.push(hex_char(byte / 16));
        text.push(hex_char(byte % 16));
        next += 1;
    }
    proof {
        assert(bytes@.take(bytes@.len() as int) =~= bytes@);
    }
    text
}

/// An image named by a digest of its bytes.
pub open spec fn digest_image(digest: Seq<u8>, bytes: Seq<u8>) -> ImageModel {
    ImageModel { id: "sha256:"@ + hex_text(digest), bytes }
}

/// Names an image by a digest of its bytes.
pub fn image_with_digest(digest: &Vec<u8>, bytes: Vec<u8>) -> (image: ImageSource)
    ensures
        image@ == digest_image(digest@, bytes@),
{
    ImageSource { id: cat("sha256:", write_hex(digest).as_str()), bytes }
}

/// Names an image by the SHA-256 digest of its bytes.
pub fn catalog_image(bytes: Vec<u8>) -> (image: ImageSource)
    ensures
        image@ == digest_image(sha256_digest(bytes@), bytes@),
{
    let digest = sha256(&bytes);
    image_with_digest(&digest, bytes)
}

/// How the art of a title is treated.
#[derive(Clone, Copy, Debug, PartialEq, Eq, Structural)]
pub enum ArtTreatment {
    CatalogArt,
    EditionPlate { palette: u8, motif: u8 },
}

/// The FNV-1a hash of bytes: from a fixed number on, each byte is mixed in and
/// the result multiplied, modulo two to the power of 64.
pub open spec fn fnv_hash(bytes: Seq<u8>) -> u64
    decreases bytes.len(),
{
    if bytes.len() == 0 {
        0xcbf2_9ce4_8422_2325
    } else {
        (((fnv_hash(bytes.drop_last()) ^ (bytes.last() as u64)) * 0x1000_0000_01b3)
            % 0x1_0000_0000_0000_0000) as u64
    }
}

/// The FNV-1a hash of bytes.
pub fn hash_bytes(bytes: &[u8]) -> (hash: u64)
    ensures
        hash == fnv_hash(bytes@),
{
    let mut hash: u64 = 0xcbf2_9ce4_8422_2325;
    let mut next: usize = 0;
    proof {
        assert(bytes@.take(0) =~= Seq::empty());
    }
    while next < bytes.len()
        invariant
            next <= bytes@.len(),
            hash == fnv_hash(bytes@.take(next as int)),
        decreases bytes@.len() - next,
    {
        let byte: u8 = bytes[next];
        proof {
            assert(bytes@.take(next + 1).drop_last() =~= bytes@.take(next as int));
            assert(bytes@.take(next + 1).last() == byte);
        }
        hash = (hash ^ (byte as u64)).wrapping_mul(0x1000_0000_01b3);
        next += 1;
    }
    proof {
        assert(bytes@.take(bytes@.len() as int) =~= bytes@);
    }
    hash
}

/// The plate of a title: its id alone picks the palette and the motif.
pub open spec fn plate_of(id: Text) -> ArtTreatment {
    let hash = fnv_hash(encode_utf8(id));
    ArtTreatment::EditionPlate { palette: (hash % 6) as u8, motif: ((hash / 6) % 6) as u8 }
}

/// The treatment of a title: its art where there is some that can be shown, or
/// else its plate.
pub open spec fn treatment_of(item: ItemModel) -> ArtTreatment {
    if item.art is Some && !item.art_failed {
        ArtTreatment::CatalogArt
    } else {
        plate_of(item.id)
    }
}

/// Picks the plate of a title.
pub fn plate_treatment(id: &str) -> (plate: ArtTreatment)
    ensures
        plate == plate_of(id@),
        plate matches ArtTreatment::EditionPlate { palette, motif } && palette < 6 && motif < 6,
{
    let hash: u64 = hash_bytes(id.as_bytes());
    ArtTreatment::EditionPlate { palette: (hash % 6) as u8, motif: ((hash / 6) % 6) as u8 }
}

/// The rows of the fade above the footer of the library.
pub const FADE_HEIGHT: usize = 96;

/// A byte of the fade above the footer of the library: the colour of the
/// canvas, more opaque from row to row.
pub open spec fn fade_byte(width: int, offset: int) -> u8 {
    let row = offset / (width * 4);
    if offset % 4 == 0 {
        0x17
    } else if offset % 4 == 1 {
        0x15
    } else if offset % 4 == 2 {
        0x12
    } else {
        ((row + 1) * 255 / 96) as u8
    }
}

/// The pixels of the fade above the footer of the library.
pub open spec fn fade_pixels(width: int) -> Seq<u8> {
    Seq::new((width * 96 * 4) as nat, |offset: int| fade_byte(width, offset))
}

/// Where a byte of a pixel lies in the fade, and what it holds.
proof fn lemma_fade_pixel(width: int, row: int, column: int, channel: int)
    requires
        width > 0,
        row >= 0,
        0 <= column < width,
        0 <= channel < 4,
    ensures
        ({
            let offset = row * (width * 4) + column * 4 + channel;
            offset / (width * 4) == row && offset % 4 == channel
        }),
{
    let line = width * 4;
    let offset = row * line + column * 4 + channel;
    vstd::arithmetic::div_mod::lemma_fundamental_div_mod_converse(
        offset,
        line,
        row,
        column * 4 + channel,
    );
    assert(row * line == 4 * (row * width)) by (nonlinear_arith)
        requires
            line == width * 4,
    ;
    vstd::arithmetic::div_mod::lemma_fundamental_div_mod_converse(
        offset,
        4,
        row * width + column,
        channel,
    );
}

/// Draws the fade above the footer of the library.
pub fn draw_fade(width: u32) -> (rgba: Vec<u8>)
    requires
        width > 0,
        width * 96 * 4 <= usize::MAX,
    ensures
        rgba@ == fade_pixels(width as int),
{
    let columns: usize = width as usize;
    let mut rgba: Vec<u8> = Vec::new();
    let mut row: usize = 0;
    while row < FADE_HEIGHT
        invariant
            columns == width,
            width > 0,
            row <= 96,
            rgba@.len() == row * (columns * 4),
            forall|i: int| 0 <= i < rgba@.len() ==> rgba@[i] == fade_byte(width as int, i),
        decreases FADE_HEIGHT - row,
    {
        let alpha: u8 = ((row + 1) * 255 / FADE_HEIGHT) as u8;
        let mut column: usize = 0;
        while column < columns
            invariant
                columns == width,
                width > 0,
                row < 96,
                alpha == (row + 1) * 255 / 96,
                column <= columns,
                rgba@.len() == row * (columns * 4) + column * 4,
                forall|i: int| 0 <= i < rgba@.len() ==> rgba@[i] == fade_byte(width as int, i),
            decreases columns - column,
        {
            let ghost start = rgba@.len() as int;
            rgba.push(0x17);
            rgba.push(0x15);
            rgba.push(0x12);
            rgba.push(alpha);
            proof {
                lemma_fade_pixel(width as int, row as int, column as int, 0);
                lemma_fade_pixel(width as int, row as int, column as int, 1);
                lemma_fade_pixel(width as int, row as int, column as int, 2);
                lemma_fade_pixel(width as int, row as int, column as int, 3);
            }
            column += 1;
        }
        row += 1;
        proof {
            assert(row * (columns * 4) == (row - 1) * (columns * 4) + columns * 4)
                by (nonlinear_arith);
        }
    }
    proof {
        assert(96 * (columns * 4) == width * 96 * 4);
        assert(rgba@ =~= fade_pixels(width as int));
    }
    rgba
}

/// The id of the fade above the footer of the library.
pub open spec fn fade_id(width: int) -> Text {
    if width == 1280 {
        "quiet-console:library-footer-fade"@
    } else {
        "quiet-console:library-footer-fade-"@ + decimal_text(width as nat)
    }
}

/// The fade above the footer of the library.
pub fn library_footer_fade_source(width: u32) -> (image: ImageSource)
    requires
        width > 0,
        width * 96 * 4 <= usize::MAX,
    ensures
        image@.id == fade_id(width as int),
        image@.bytes == encoded_png(width, 96u32, fade_pixels(width as int)),
{
    let rgba = draw_fade(width);
    let id = if width == 1280 {
        "quiet-console:library-footer-fade".to_owned()
    } else {
        cat("quiet-console:library-footer-fade-", decimal(width as u64).as_str())
    };
    ImageSource { id, bytes: encode_rgba(width, 96, &rgba) }
}

/// Whether the glyph of the wireless network covers a pixel of its 24 by 24: a
/// dot and two arcs of a fan around a point below the middle. Lengths are
/// counted in half pixels.
pub open spec fn wifi_covers(x: int, y: int) -> bool {
    let across = if 2 * x >= 23 {
        2 * x - 23
    } else {
        23 - 2 * x
    };
    let up = 37 - 2 * y;
    let square = across * across + up * up;
    square <= 12 || (up > 0 && 20 * across <= 29 * up && (74 <= square <= 158 || 256 <= square
        <= 416))
}

/// A byte of the glyph of the wireless network.
pub open spec fn wifi_byte(offset: int) -> u8 {
    if !wifi_covers((offset / 4) % 24, (offset / 4) / 24) {
        0
    } else if offset % 4 == 0 {
        0xc9
    } else if offset % 4 == 1 {
        0xc2
    } else if offset % 4 == 2 {
        0xb4
    } else {
        0xff
    }
}

/// The pixels of the glyph of the wireless network.
pub open spec fn wifi_pixels() -> Seq<u8> {
    Seq::new(2304, |offset: int| wifi_byte(offset))
}

fn covers_wifi(x: i64, y: i64) -> (covered: bool)
    requires
        0 <= x < 24,
        0 <= y < 24,
    ensures
        covered == wifi_covers(x as int, y as int),
{
    let across: i64 = if 2 * x >= 23 {
        2 * x - 23
    } else {
        23 - 2 * x
    };
    let up: i64 = 37 - 2 * y;
    proof {
        assert(0 <= across * across <= 23 * 23) by (nonlinear_arith)
            requires
                0 <= across <= 23,
        ;
        assert(0 <= up * up <= 37 * 37) by (nonlinear_arith)
            requires
                -37 <= up <= 37,
        ;
    }
    let square: i64 = across * across + up * up;
    square <= 12 || (up > 0 && 20 * across <= 29 * up && ((74 <= square && square <= 158) || (256
        <= square && square <= 416)))
}

/// Draws the glyph of the wireless network.
pub fn draw_wifi_glyph() -> (rgba: Vec<u8>)
    ensures
        rgba@ == wifi_pixels(),
{
    let mut rgba: Vec<u8> = Vec::new();
    let mut pixel: usize = 0;
    while pixel < 576
        invariant
            pixel <= 576,
            rgba@.len() == pixel * 4,
            forall|i: int| 0 <= i < rgba@.len() ==> rgba@[i] == wifi_byte(i),
        decreases 576 - pixel,
    {
        let ghost start = rgba@.len() as int;
        proof {
            assert(start / 4 == pixel && (start + 1) / 4 == pixel && (start + 2) / 4 == pixel && (
            start + 3) / 4 == pixel);
        }
        if covers_wifi((pixel % 24) as i64, (pixel / 24) as i64) {
            rgba.push(0xc9);
            rgba.push(0xc2);
            rgba.push(0xb4);
            rgba.push(0xff);
        } else {
            rgba.push(0);
            rgba.push(0);
            rgba.push(0);
            rgba.push(0);
        }
        pixel += 1;
    }
    proof {
        assert(rgba@ =~= wifi_pixels());
    }
    rgba
}

/// The glyph of the wireless network.
pub fn wifi_glyph_source() -> (image: ImageSource)
    ensures
        image@.id == "quiet-console:g-wifi.svg-path"@,
        image@.bytes == encoded_png(24u32, 24u32, wifi_pixels()),
{
    let rgba = draw_wifi_glyph();
    ImageSource {
        id: "quiet-console:g-wifi.svg-path".to_owned(),
        bytes: encode_rgba(24, 24, &rgba),
    }
}

/// The width of the wash behind the hero of the home route.
pub const WASH_WIDTH: u32 = 1_280;

/// The height of the wash behind the hero of the home route.
pub const WASH_HEIGHT: u32 = 344;

/// The wash behind the hero of the home route, from its pixels.
pub fn hero_wash_source(rgba: &Vec<u8>) -> (image: ImageSource)
    requires
        rgba@.len() == WASH_WIDTH * WASH_HEIGHT * 4,
    ensures
        image@.id
            == "quiet-console:aura-ridgeline:201-111-87@0.5/68%;58-43-78@0.65/70%;opacity=0.55"@,
        image@.bytes == encoded_png(WASH_WIDTH, WASH_HEIGHT, rgba@),
{
    ImageSource {
        id: "quiet-console:aura-ridgeline:201-111-87@0.5/68%;58-43-78@0.65/70%;opacity=0.55".to_owned(),
        bytes: encode_rgba(WASH_WIDTH, WASH_HEIGHT, rgba),
    }
}

} // verus!
