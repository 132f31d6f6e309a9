//! Sprites cut from the character sheet: single glyphs, lines of text, and
//! boxes drawn from nine pieces.

use vstd::prelude::*;
use vstd::std_specs::ops::{AddSpec, DivSpec, MulSpec, NegSpec, SubSpec};
use vstd::string::StrSliceExecFns;
use core::ops::Neg;
use crate::graphics::Color;
use crate::number::{at_least, count, exact, from_count, from_wide_count, total, wide_count, Number};

verus! {

/// Number of sprites on the character sheet.
pub const SHEET_SPRITES: usize = 256;

/// Number of sprites in one row of the character sheet.
pub const SHEET_COLUMNS: usize = 16;

/// One sprite of the character sheet, placed relative to its parent.
#[derive(Debug)]
pub struct AsciiSprite<Q> {
    /// The place of the sprite on the sheet.
    pub index: usize,
    pub color: Color<Q>,
    pub translation: (Q, Q, Q),
    pub scale: (Q, Q, Q),
}

impl<Q: Copy> Clone for AsciiSprite<Q> {
    fn clone(&self) -> (copy: AsciiSprite<Q>)
        ensures
            copy == *self,
    {
        AsciiSprite {
            index: self.index,
            color: self.color,
            translation: self.translation,
            scale: self.scale,
        }
    }
}

impl<Q: Copy> Copy for AsciiSprite<Q> {

}

/// A line of text: one sprite for each character, from left to right.
#[derive(Debug)]
pub struct AsciiText<Q> {
    /// Where the line starts.
    pub left_center: (Q, Q, Q),
    /// The characters, each placed relative to `left_center`.
    pub sprites: Vec<AsciiSprite<Q>>,
}

/// Where on the character sheet the pieces of a box are.
#[derive(Clone, Copy, Debug, PartialEq, Eq, Structural)]
pub struct NineSliceIndices {
    pub center: usize,
    pub upper_left_index: usize,
    pub upper_right_index: usize,
    pub lower_left_index: usize,
    pub lower_right_index: usize,
    pub horizontal_index: usize,
    pub vertical_index: usize,
}

impl Default for NineSliceIndices {
    /// The pieces of the box on the character sheet, each given by its row
    /// and column.
    fn default() -> (indices: NineSliceIndices)
        ensures
            indices.center == 2 * SHEET_COLUMNS,
            indices.upper_left_index == 13 * SHEET_COLUMNS + 10,
            indices.upper_right_index == 11 * SHEET_COLUMNS + 15,
            indices.lower_left_index == 12 * SHEET_COLUMNS,
            indices.lower_right_index == 13 * SHEET_COLUMNS + 9,
            indices.horizontal_index == 12 * SHEET_COLUMNS + 4,
            indices.vertical_index == 11 * SHEET_COLUMNS + 3,
            indices.on_sheet(),
    {
        NineSliceIndices {
            center: 2 * SHEET_COLUMNS,
            upper_left_index: 13 * SHEET_COLUMNS + 10,
            upper_right_index: 11 * SHEET_COLUMNS + 15,
            lower_left_index: 12 * SHEET_COLUMNS,
            lower_right_index: 13 * SHEET_COLUMNS + 9,
            horizontal_index: 12 * SHEET_COLUMNS + 4,
            vertical_index: 11 * SHEET_COLUMNS + 3,
        }
    }
}

impl NineSliceIndices {
    /// Every piece is a sprite of the sheet.
    pub open spec fn on_sheet(self) -> bool {
        &&& self.center < SHEET_SPRITES
        &&& self.upper_left_index < SHEET_SPRITES
        &&& self.upper_right_index < SHEET_SPRITES
        &&& self.lower_left_index < SHEET_SPRITES
        &&& self.lower_right_index < SHEET_SPRITES
        &&& self.horizontal_index < SHEET_SPRITES
        &&& self.vertical_index < SHEET_SPRITES
    }

    /// Whether every piece is a sprite of the sheet.
    pub fn is_on_sheet(&self) -> (all: bool)
        ensures
            all == self.on_sheet(),
    {
        self.center < SHEET_SPRITES && self.upper_left_index < SHEET_SPRITES
            && self.upper_right_index < SHEET_SPRITES && self.lower_left_index < SHEET_SPRITES
            && self.lower_right_index < SHEET_SPRITES && self.horizontal_index < SHEET_SPRITES
            && self.vertical_index < SHEET_SPRITES
    }
}

/// A box drawn from nine sprites: the stretched centre, the four corners and
/// the four stretched edges.
#[derive(Debug)]
pub struct NineSlice<Q> {
    pub sprites: Vec<AsciiSprite<Q>>,
}

/// The colour with the given red, green and blue, each in tenths, and full alpha.
pub open spec fn tenths<Q: Number>(red: u16, green: u16, blue: u16) -> Color<Q> {
    Color {
        red: count::<Q>(red).div_spec(count::<Q>(10)),
        green: count::<Q>(green).div_spec(count::<Q>(10)),
        blue: count::<Q>(blue).div_spec(count::<Q>(10)),
        alpha: count::<Q>(1),
    }
}

/// A half.
pub open spec fn half<Q: Number>() -> Q {
    count::<Q>(1).div_spec(count::<Q>(2))
}

/// The same number three times.
pub open spec fn splat<Q: Number>(value: Q) -> (Q, Q, Q) {
    (value, value, value)
}

/// The sprite of the character at place `i` of a line of text: the
/// character's own number on the sheet, light grey, `i` tiles to the right
/// of the start of the line.
pub open spec fn text_sprite<Q: Number>(character: char, i: int, tile_size: Q) -> AsciiSprite<Q> {
    AsciiSprite {
        index: character as usize,
        color: tenths::<Q>(8, 8, 8),
        translation: (
            wide_count::<Q>(i as u64).mul_spec(tile_size),
            count::<Q>(0),
            count::<Q>(0),
        ),
        scale: splat(count::<Q>(1)),
    }
}

/// Every character of the text is a sprite of the sheet.
pub open spec fn printable(text: Seq<char>) -> bool {
    forall|i: int| 0 <= i < text.len() ==> ((#[trigger] text[i]) as int) < SHEET_SPRITES
}

/// The nine sprites of a box of `width` by `height` tiles around its centre.
pub open spec fn nine_slice_sprites<Q: Number>(
    indices: NineSliceIndices,
    width: Q,
    height: Q,
    tile_size: Q,
) -> Seq<AsciiSprite<Q>> {
    let color = tenths::<Q>(3, 3, 9);
    let zero = count::<Q>(0);
    let one = count::<Q>(1);
    let two = count::<Q>(2);
    let left = width.neg_spec().div_spec(two).add_spec(half::<Q>()).mul_spec(tile_size);
    let right = width.div_spec(two).sub_spec(half::<Q>()).mul_spec(tile_size);
    let up = height.div_spec(two).sub_spec(half::<Q>()).mul_spec(tile_size);
    let down = height.neg_spec().div_spec(two).add_spec(half::<Q>()).mul_spec(tile_size);
    let wide = width.sub_spec(two);
    let high = height.sub_spec(two);
    seq![
        AsciiSprite {
            index: indices.center,
            color,
            translation: (zero, zero, zero),
            scale: (wide, high, zero),
        },
        AsciiSprite {
            index: indices.upper_left_index,
            color,
            translation: (left, up, zero),
            scale: splat(one),
        },
        AsciiSprite {
            index: indices.vertical_index,
            color,
            translation: (left, zero, zero),
            scale: (one, high, one),
        },
        AsciiSprite {
            index: indices.lower_left_index,
            color,
            translation: (left, down, zero),
            scale: splat(one),
        },
        AsciiSprite {
            index: indices.horizontal_index,
            color,
            translation: (zero, down, zero),
            scale: (wide, one, one),
        },
        AsciiSprite {
            index: indices.horizontal_index,
            color,
            translation: (zero, up, zero),
            scale: (wide, one, one),
        },
        AsciiSprite {
            index: indices.upper_right_index,
            color,
            translation: (right, up, zero),
            scale: splat(one),
        },
        AsciiSprite {
            index: indices.vertical_index,
            color,
            translation: (right, zero, zero),
            scale: (one, high, one),
        },
        AsciiSprite {
            index: indices.lower_right_index,
            color,
            translation: (right, down, zero),
            scale: splat(one),
        },
    ]
}

/// A colour given in tenths, with full alpha.
fn color_in_tenths<Q: Number>(red: u16, green: u16, blue: u16) -> (color: Color<Q>)
    requires
        total::<Q>(),
    ensures
        exact::<Q>() ==> color == tenths::<Q>(red, green, blue),
{
    let ten: Q = from_count(10);
    let red: Q = from_count(red);
    let green: Q = from_count(green);
    let blue: Q = from_count(blue);
    Color { red: red / ten, green: green / ten, blue: blue / ten, alpha: from_count(1) }
}

/// One sprite of the character sheet. The index has to be on the sheet.
pub fn spawn_ascii_sprite<Q: Number>(
    index: usize,
    color: Color<Q>,
    translation: (Q, Q, Q),
    scale: (Q, Q, Q),
) -> (sprite: AsciiSprite<Q>)
    requires
        index < SHEET_SPRITES,
    ensures
        sprite == (AsciiSprite { index, color, translation, scale }),
{
    AsciiSprite { index, color, translation, scale }
}

/// Whether every character of the text is a sprite of the sheet.
pub fn is_printable(text: &str) -> (all: bool)
    ensures
        all == printable(text@),
{
    let length = text.unicode_len();
    let mut i: usize = 0;
    while i < length
        invariant
            i <= length,
            length == text@.len(),
            forall|k: int| 0 <= k < i ==> ((#[trigger] text@[k]) as int) < SHEET_SPRITES,
        decreases length - i,
    {
        let character = text.get_char(i);
        if character as usize >= SHEET_SPRITES {
            return false;
        }
        i += 1;
    }
    true
}

/// The sprites of a line of text that starts at `left_center`, one tile per
/// character. Every character has to be on the sheet.
pub fn spawn_ascii_text<Q: Number>(to_print: &str, left_center: (Q, Q, Q), tile_size: Q) -> (text:
    AsciiText<Q>)
    requires
        total::<Q>(),
        printable(to_print@),
    ensures
        text.left_center == left_center,
        text.sprites@.len() == to_print@.len(),
        forall|i: int|
            0 <= i < to_print@.len() ==> (#[trigger] text.sprites@[i]).index
                == to_print@[i] as usize,
        exact::<Q>() ==> forall|i: int|
            0 <= i < to_print@.len() ==> #[trigger] text.sprites@[i] == text_sprite(
                to_print@[i],
                i,
                tile_size,
            ),
{
    let length = to_print.unicode_len();
    let color: Color<Q> = color_in_tenths(8, 8, 8);
    let zero: Q = from_count(0);
    let one: Q = from_count(1);
    let mut sprites: Vec<AsciiSprite<Q>> = Vec::new();
    let mut i: usize = 0;
    while i < length
        invariant
            i <= length,
            length == to_print@.len(),
            printable(to_print@),
            total::<Q>(),
            sprites@.len() == i,
            forall|k: int| 0 <= k < i ==> (#[trigger] sprites@[k]).index == to_print@[k] as usize,
            exact::<Q>() ==> color == tenths::<Q>(8, 8, 8) && zero == count::<Q>(0) && one
                == count::<Q>(1),
            exact::<Q>() ==> forall|k: int|
                0 <= k < i ==> #[trigger] sprites@[k] == text_sprite(to_print@[k], k, tile_size),
        decreases length - i,
    {
        let character = to_print.get_char(i);
        let column: Q = from_wide_count(i as u64);
        sprites.push(
            spawn_ascii_sprite(
                character as usize,
                color,
                (column * tile_size, zero, zero),
                (one, one, one),
            ),
        );
        i += 1;
    }
    AsciiText { left_center, sprites }
}

/// The nine sprites of a box of `width` by `height` tiles. The box has to be
/// at least two tiles wide and two tiles high, and its pieces have to be on
/// the sheet.
pub fn spawn_nine_slice<Q: Number>(
    indices: &NineSliceIndices,
    width: Q,
    height: Q,
    tile_size: Q,
) -> (slice: NineSlice<Q>)
    requires
        total::<Q>(),
        indices.on_sheet(),
        at_least(width, count::<Q>(2)),
        at_least(height, count::<Q>(2)),
    ensures
        slice.sprites@.len() == 9,
        slice.sprites@[0].index == indices.center,
        slice.sprites@[1].index == indices.upper_left_index,
        slice.sprites@[2].index == indices.vertical_index,
        slice.sprites@[3].index == indices.lower_left_index,
        slice.sprites@[4].index == indices.horizontal_index,
        slice.sprites@[5].index == indices.horizontal_index,
        slice.sprites@[6].index == indices.upper_right_index,
        slice.sprites@[7].index == indices.vertical_index,
        slice.sprites@[8].index == indices.lower_right_index,
        exact::<Q>() ==> slice.sprites@ == nine_slice_sprites(*indices, width, height, tile_size),
{
    let zero: Q = from_count(0);
    let one: Q = from_count(1);
    let two: Q = from_count(2);
    let color: Color<Q> = color_in_tenths(3, 3, 9);
    let half = one / two;
    let left = (width.neg() / two + half) * tile_size;
    let right = (width / two - half) * tile_size;
    let up = (height / two - half) * tile_size;
    let down = (height.neg() / two + half) * tile_size;
    let wide = width - two;
    let high = height - two;
    let unit = (one, one, one);
    let mut sprites: Vec<AsciiSprite<Q>> = Vec::new();
    sprites.push(spawn_ascii_sprite(indices.center, color, (zero, zero, zero), (wide, high, zero)));
    sprites.push(spawn_ascii_sprite(indices.upper_left_index, color, (left, up, zero), unit));
    sprites.push(
        spawn_ascii_sprite(indices.vertical_index, color, (left, zero, zero), (one, high, one)),
    );
    sprites.push(spawn_ascii_sprite(indices.lower_left_index, color, (left, down, zero), unit));
    sprites.push(
        spawn_ascii_sprite(indices.horizontal_index, color, (zero, down, zero), (wide, one, one)),
    );
    sprites.push(
        spawn_ascii_sprite(indices.horizontal_index, color, (zero, up, zero), (wide, one, one)),
    );
    sprites.push(spawn_ascii_sprite(indices.upper_right_index, color, (right, up, zero), unit));
    sprites.push(
        spawn_ascii_sprite(indices.vertical_index, color, (right, zero, zero), (one, high, one)),
    );
    sprites.push(spawn_ascii_sprite(indices.lower_right_index, color, (right, down, zero), unit));
    proof {
        if exact::<Q>() {
            assert(sprites@ =~= nine_slice_sprites(*indices, width, height, tile_size));
        }
    }
    NineSlice { sprites }
}

} // verus!
