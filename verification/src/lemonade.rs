//! Tile decoder: walks a graphics-data region as fixed 16-byte records and
//! resolves each record's two bitplanes against a palette into an 8x8 grid of
//! colours.

use vstd::prelude::*;
use vstd::slice::slice_subrange;
use crate::bits::{bit_at, bit_set};

verus! {

pub const SPRITE_SIZE: usize = 16;

/// An 8x8 grid of resolved colours, one row per array element.
pub type RgbSprite = [[Colour; 8]; 8];

/// One colour with three 8-bit channels; its view is the sequence
/// `[red, green, blue]`.
#[derive(Clone, Copy, Debug, PartialEq, Eq, Structural)]
pub struct Colour {
    r: u8,
    g: u8,
    b: u8,
}

impl View for Colour {
    type V = Seq<u8>;

    closed spec fn view(&self) -> Seq<u8> {
        seq![self.r, self.g, self.b]
    }
}

impl Colour {
    pub fn new(r: u8, g: u8, b: u8) -> (c: Colour)
        ensures
            c@ == seq![r, g, b],
    {
        Self { r, g, b }
    }

    /// The three channel values as a byte array, in red, green, blue order.
    pub fn raw_colour(self) -> (raw: [u8; 3])
        ensures
            raw@ == self@,
    {
        let raw: [u8; 3] = [self.r, self.g, self.b];
        proof {
            assert(raw@ =~= self@);
        }
        raw
    }
}

impl Default for Colour {
    /// The all-zero (black) colour.
    fn default() -> (c: Colour)
        ensures
            c@ == seq![0u8, 0u8, 0u8],
    {
        Colour::new(0, 0, 0)
    }
}

impl From<[u8; 3]> for Colour {
    fn from(raw_rgb: [u8; 3]) -> (c: Colour)
        ensures
            c@ == raw_rgb@,
    {
        let c = Colour::new(raw_rgb[0], raw_rgb[1], raw_rgb[2]);
        proof {
            assert(c@ =~= raw_rgb@);
        }
        c
    }
}

impl vstd::std_specs::convert::FromSpecImpl<[u8; 3]> for Colour {
    open spec fn obeys_from_spec() -> bool {
        true
    }

    closed spec fn from_spec(raw_rgb: [u8; 3]) -> Colour {
        Colour { r: raw_rgb@[0], g: raw_rgb@[1], b: raw_rgb@[2] }
    }
}

/// One background colour and three foreground colours, fixed at construction.
#[derive(Clone, Copy, Debug)]
pub struct ColourPalette {
    background: Colour,
    colours: [Colour; 3],
}

impl ColourPalette {
    /// The background colour.
    pub closed spec fn spec_background(&self) -> Colour {
        self.background
    }

    /// The three foreground colours, in order.
    pub closed spec fn spec_colours(&self) -> Seq<Colour> {
        self.colours@
    }

    pub fn new(background: Colour, colours: [Colour; 3]) -> (p: ColourPalette)
        ensures
            p.spec_background() == background,
            p.spec_colours() == colours@,
    {
        Self { background, colours }
    }
}

/// The colour of one pixel: bit `col` of the plane-A byte and of the plane-B
/// byte select foreground colour 3 (both set), 2 (only B), 1 (only A), or the
/// background (neither).
pub open spec fn pixel_colour(palette: ColourPalette, plane_a: u8, plane_b: u8, col: u8) -> Colour
    recommends
        col < 8,
{
    if bit_set(plane_a, col) && bit_set(plane_b, col) {
        palette.spec_colours()[2]
    } else if bit_set(plane_b, col) {
        palette.spec_colours()[1]
    } else if bit_set(plane_a, col) {
        palette.spec_colours()[0]
    } else {
        palette.spec_background()
    }
}

fn resolve_pixel(palette: ColourPalette, plane_a: u8, plane_b: u8, col: u8) -> (c: Colour)
    requires
        col < 8,
    ensures
        c == pixel_colour(palette, plane_a, plane_b, col),
{
    if bit_at(plane_a, col) && bit_at(plane_b, col) {
        palette.colours[2]
    } else if bit_at(plane_b, col) {
        palette.colours[1]
    } else if bit_at(plane_a, col) {
        palette.colours[0]
    } else {
        palette.background
    }
}

/// One row of eight pixels from the row's plane-A and plane-B bytes.
fn resolve_row(palette: ColourPalette, plane_a: u8, plane_b: u8) -> (row: [Colour; 8])
    ensures
        forall|col: int|
            0 <= col < 8 ==> row@[col] == pixel_colour(palette, plane_a, plane_b, col as u8),
{
    let row: [Colour; 8] = [
        resolve_pixel(palette, plane_a, plane_b, 0),
        resolve_pixel(palette, plane_a, plane_b, 1),
        resolve_pixel(palette, plane_a, plane_b, 2),
        resolve_pixel(palette, plane_a, plane_b, 3),
        resolve_pixel(palette, plane_a, plane_b, 4),
        resolve_pixel(palette, plane_a, plane_b, 5),
        resolve_pixel(palette, plane_a, plane_b, 6),
        resolve_pixel(palette, plane_a, plane_b, 7),
    ];
    row
}

/// Law: tile decoding is deterministic: two pixel grids whose entries each
/// resolve the same record bytes against the same palette are equal, so
/// decoding the same record twice yields identical grids.
pub proof fn lemma_decode_deterministic(
    g1: RgbSprite,
    g2: RgbSprite,
    record: Seq<u8>,
    palette: ColourPalette,
)
    requires
        forall|row: int, col: int|
            0 <= row < 8 && 0 <= col < 8 ==> #[trigger] g1@[row]@[col] == pixel_colour(
                palette,
                record[row],
                record[row + 8],
                col as u8,
            ),
        forall|row: int, col: int|
            0 <= row < 8 && 0 <= col < 8 ==> #[trigger] g2@[row]@[col] == pixel_colour(
                palette,
                record[row],
                record[row + 8],
                col as u8,
            ),
    ensures
        g1 == g2,
{
    assert forall|i: int| 0 <= i < 8 implies g1@[i] == g2@[i] by {
        assert(g1@[i] =~= g2@[i]);
    }
    assert(g1 =~= g2);
}

/// A borrowed view of exactly 16 raw bytes: one complete tile record.
pub struct Sprite<'a> {
    raw_sprite_data: &'a [u8],
}

impl<'a> View for Sprite<'a> {
    type V = Seq<u8>;

    closed spec fn view(&self) -> Seq<u8> {
        self.raw_sprite_data@
    }
}

impl<'a> Sprite<'a> {
    /// A sprite always holds one complete 16-byte record.
    pub open spec fn wf(&self) -> bool {
        self@.len() == SPRITE_SIZE
    }

    /// The raw 16 bytes of the record.
    pub fn buffer(&self) -> (r: &'a [u8])
        ensures
            r@ == self@,
    {
        self.raw_sprite_data
    }

    /// Resolves the record against `colour_palette`: bytes 0-7 are plane A,
    /// bytes 8-15 are plane B; row `r` is decoded from plane byte `r` of each,
    /// and bit `c` of those bytes (least-significant first) gives column `c`.
    pub fn to_rgb(&self, colour_palette: ColourPalette) -> (grid: RgbSprite)
        requires
            self.wf(),
        ensures
            forall|row: int, col: int|
                0 <= row < 8 && 0 <= col < 8 ==> #[trigger] grid@[row]@[col] == pixel_colour(
                    colour_palette,
                    self@[row],
                    self@[row + 8],
                    col as u8,
                ),
    {
        let d = self.raw_sprite_data;
        let grid: RgbSprite = [
            resolve_row(colour_palette, d[0], d[8]),
            resolve_row(colour_palette, d[1], d[9]),
            resolve_row(colour_palette, d[2], d[10]),
            resolve_row(colour_palette, d[3], d[11]),
            resolve_row(colour_palette, d[4], d[12]),
            resolve_row(colour_palette, d[5], d[13]),
            resolve_row(colour_palette, d[6], d[14]),
            resolve_row(colour_palette, d[7], d[15]),
        ];
        grid
    }
}

/// A restartable cursor over a graphics-data region, yielding its complete
/// 16-byte records in order and discarding any trailing partial record.
#[derive(Clone)]
pub struct Lemonade<'a> {
    data: &'a [u8],
    pos: usize,
}

impl<'a> Lemonade<'a> {
    /// The bytes of the whole region the cursor was created over.
    pub closed spec fn spec_data(&self) -> Seq<u8> {
        self.data@
    }

    /// The byte offset of the next record to yield.
    pub closed spec fn spec_pos(&self) -> int {
        self.pos as int
    }

    /// The cursor sits on a record boundary, inside the region.
    pub open spec fn wf(&self) -> bool {
        &&& self.spec_pos() % 16 == 0
        &&& self.spec_pos() <= self.spec_data().len()
    }

    /// How many complete records the region holds in all.
    pub open spec fn total_sprites(&self) -> int {
        self.spec_data().len() as int / 16
    }

    /// How many complete records are still ahead of the cursor.
    pub open spec fn remaining_sprites(&self) -> int {
        (self.spec_data().len() - self.spec_pos()) / 16
    }

    pub fn new(data: &'a [u8]) -> (s: Lemonade<'a>)
        ensures
            s.spec_data() == data@,
            s.spec_pos() == 0,
            s.wf(),
            s.remaining_sprites() == s.total_sprites(),
    {
        Self { data, pos: 0 }
    }

    /// The number of complete 16-byte records not yet yielded; on a fresh
    /// cursor, the total number in the region.
    pub fn num_sprites(&self) -> (n: usize)
        requires
            self.wf(),
        ensures
            n == self.remaining_sprites(),
    {
        (self.data.len() - self.pos) / 16
    }

    /// Yields the next complete record and advances, or `None` once fewer
    /// than 16 bytes remain.
    pub fn next(&mut self) -> (r: Option<Sprite<'a>>)
        requires
            old(self).wf(),
        ensures
            final(self).spec_data() == old(self).spec_data(),
            final(self).wf(),
            if old(self).remaining_sprites() > 0 {
                &&& final(self).spec_pos() == old(self).spec_pos() + 16
                &&& r matches Some(s) && s.wf() && s@ == old(self).spec_data().subrange(
                    old(self).spec_pos(),
                    old(self).spec_pos() + 16,
                )
            } else {
                &&& r is None
                &&& final(self).spec_pos() == old(self).spec_pos()
            },
    {
        if self.data.len() - self.pos >= 16 {
            let start = self.pos;
            let raw_sprite_data = slice_subrange(self.data, start, start + 16);
            self.pos = start + 16;
            Some(Sprite { raw_sprite_data })
        } else {
            None
        }
    }

    /// Random access: the record at `index` counted over the whole region,
    /// independent of the cursor, or `None` past the last complete record.
    pub fn nth(&self, index: usize) -> (r: Option<Sprite<'a>>)
        ensures
            if index < self.total_sprites() {
                r matches Some(s) && s.wf() && s@ == self.spec_data().subrange(
                    index * 16,
                    index * 16 + 16,
                )
            } else {
                r is None
            },
    {
        if index < self.data.len() / 16 {
            proof {
                assert(index * 16 + 16 <= self.data.len()) by (nonlinear_arith)
                    requires
                        index < self.data.len() / 16,
                ;
            }
            let start = index * 16;
            let raw_sprite_data = slice_subrange(self.data, start, start + 16);
            Some(Sprite { raw_sprite_data })
        } else {
            None
        }
    }
}

} // verus!
