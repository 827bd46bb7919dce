//! Baking glyphs into an atlas: cells of power-of-two size, packed left to
//! right, row under row.

use crate::fonts::font::{Char, FontError, MISSING_CHAR};
use std::collections::HashMap;
use vstd::arithmetic::div_mod::{lemma_fundamental_div_mod, lemma_fundamental_div_mod_converse};
use crate::text::with_number;
use vstd::prelude::*;
use vstd::string::StringExecFns;

verus! {

/// The widest glyph and the highest line that cells are made for.
pub const MAX_EXTENT: usize = 0x8000_0000;

/// True for one, two, four, eight and so on.
pub open spec fn is_pow2(n: nat) -> bool
    decreases n,
{
    n == 1 || (n > 1 && n % 2 == 0 && is_pow2(n / 2))
}

/// True when `rounded` is the least power of two that is not below `value`.
pub open spec fn rounds_up(value: nat, rounded: nat) -> bool {
    &&& is_pow2(rounded)
    &&& value <= rounded
    &&& rounded == 1 || rounded / 2 < value
}

/// The least power of two that is not below `value`.
pub open spec fn round_up(value: nat) -> nat {
    choose|rounded: nat| rounds_up(value, rounded)
}

/// Of two different powers of two the greater is at least twice the lesser.
pub proof fn lemma_pow2_gap(a: nat, b: nat)
    requires
        is_pow2(a),
        is_pow2(b),
        a < b,
    ensures
        2 * a <= b,
    decreases b,
{
    if a > 1 {
        lemma_pow2_gap(a / 2, b / 2);
    }
}

/// The greatest extent is a power of two.
pub proof fn lemma_max_extent_is_pow2()
    ensures
        is_pow2(MAX_EXTENT as nat),
{
    reveal_with_fuel(is_pow2, 33);
}

/// There is only one least power of two that is not below a value.
pub proof fn lemma_round_up_unique(value: nat, rounded: nat)
    requires
        rounds_up(value, rounded),
    ensures
        round_up(value) == rounded,
{
    let other = round_up(value);
    if other < rounded {
        lemma_pow2_gap(other, rounded);
    } else if rounded < other {
        lemma_pow2_gap(rounded, other);
    }
}

/// The least power of two that is not below `value`; one for zero.
pub fn round_up_pow_2(value: usize) -> (rounded: usize)
    requires
        value <= MAX_EXTENT,
    ensures
        rounded == round_up(value as nat),
        rounds_up(value as nat, rounded as nat),
        rounded <= MAX_EXTENT,
{
    let mut rounded: usize = 1;
    while rounded < value
        invariant
            value <= MAX_EXTENT,
            is_pow2(rounded as nat),
            rounded == 1 || rounded / 2 < value,
            1 <= rounded <= MAX_EXTENT,
        decreases 2 * MAX_EXTENT - rounded,
    {
        proof {
            lemma_max_extent_is_pow2();
            lemma_pow2_gap(rounded as nat, MAX_EXTENT as nat);
            assert((rounded * 2) / 2 == rounded);
        }
        rounded = rounded * 2;
    }
    proof {
        lemma_round_up_unique(value as nat, rounded as nat);
    }
    rounded
}

/// A rasterized glyph: the character, the size of its bitmap in pixels, how
/// far its lower edge lies above the baseline, and the coverage of each
/// pixel, row by row from the top.
#[derive(Debug)]
pub struct Glyph {
    pub ch: char,
    pub width: usize,
    pub height: usize,
    pub ymin: i32,
    pub bitmap: Vec<u8>,
}

/// How placing a glyph ended.
#[derive(Clone, Copy, Debug, PartialEq, Eq, Structural)]
pub enum Placement {
    /// The glyph was drawn into this cell.
    Placed(Char),
    /// The glyph is higher than a line: it was left out.
    TooTall,
    /// The glyph's top lies above what the baseline leaves room for: it was
    /// left out.
    AboveBaseline,
    /// The glyph's pixels do not all lie inside the atlas: nothing was
    /// drawn.
    OutOfAtlas,
    /// The bitmap is not as long as width times height, or the glyph is
    /// wider than a cell can be: nothing was drawn.
    Malformed,
}

/// A glyph as a value.
pub ghost struct Shape {
    pub ch: char,
    pub width: nat,
    pub height: nat,
    pub ymin: int,
    pub bitmap: Seq<u8>,
}

impl View for Glyph {
    type V = Shape;

    open spec fn view(&self) -> Shape {
        Shape {
            ch: self.ch,
            width: self.width as nat,
            height: self.height as nat,
            ymin: self.ymin as int,
            bitmap: self.bitmap@,
        }
    }
}

/// The pixel column of byte `i` in an image that is `w` pixels wide, four
/// bytes to the pixel.
pub open spec fn column_of(i: int, w: int) -> int {
    (i / 4) % w
}

/// The pixel row of byte `i` in an image that is `w` pixels wide, four
/// bytes to the pixel.
pub open spec fn row_of(i: int, w: int) -> int {
    (i / 4) / w
}

/// True when the pixel `(px, py)` belongs to the part of a glyph drawn so
/// far: the glyph's first `rows` rows, and the first `columns` pixels of the
/// row after them, with the glyph's left top corner at `(x0, y0)`.
pub open spec fn drawn(px: int, py: int, x0: int, y0: int, width: int, rows: int, columns: int) -> bool {
    &&& x0 <= px < x0 + width
    &&& y0 <= py
    &&& py - y0 < rows || (py - y0 == rows && px - x0 < columns)
}

/// The image `data`, `w` pixels wide, with the first `rows` rows of a glyph
/// and the first `columns` pixels of its next row drawn at `(x0, y0)`: each
/// pixel of the glyph is white with the glyph's coverage as its alpha.
pub open spec fn drawn_upto(
    data: Seq<u8>,
    w: int,
    x0: int,
    y0: int,
    width: int,
    rows: int,
    columns: int,
    bitmap: Seq<u8>,
) -> Seq<u8> {
    Seq::new(
        data.len(),
        |i: int|
            if drawn(column_of(i, w), row_of(i, w), x0, y0, width, rows, columns) {
                if i % 4 == 3 {
                    bitmap[(row_of(i, w) - y0) * width + (column_of(i, w) - x0)]
                } else {
                    255u8
                }
            } else {
                data[i]
            },
    )
}

/// The image `data`, `w` pixels wide, with the whole glyph drawn at
/// `(x0, y0)`.
pub open spec fn blit(data: Seq<u8>, w: int, x0: int, y0: int, width: int, height: int, bitmap: Seq<u8>) -> Seq<
    u8,
> {
    drawn_upto(data, w, x0, y0, width, height, 0, bitmap)
}

/// The key under which the cell of a character is kept: its code point.
pub open spec fn key_of(ch: char) -> u32 {
    ch as u32
}

/// The atlas as a value: the image, the line it is baked for, where the
/// next cell goes, and the cells of the characters placed so far.
pub ghost struct Sheet {
    pub width: nat,
    pub height: nat,
    pub line_height: nat,
    pub baseline: int,
    pub step_y: nat,
    pub offset_x: nat,
    pub offset_y: nat,
    pub data: Seq<u8>,
    pub charset: Map<u32, Char>,
}

impl Sheet {
    /// The image has four bytes to the pixel, rows are as high as the least
    /// power of two that holds a line, every cell is kept under the code
    /// point of its character, no two cells share a pixel, and every cell
    /// lies inside the image, in a finished row or left of where the next
    /// cell goes.
    pub open spec fn wf(self) -> bool {
        &&& self.data.len() == self.width * self.height * 4
        &&& self.width <= usize::MAX
        &&& self.height <= usize::MAX
        &&& self.offset_x <= usize::MAX
        &&& self.offset_y <= usize::MAX
        &&& self.line_height <= MAX_EXTENT
        &&& -0x8000_0000 <= self.baseline <= 0x7fff_ffff
        &&& self.step_y == round_up(self.line_height)
        &&& rounds_up(self.line_height, self.step_y)
        &&& forall|a: u32, b: u32|
            self.charset.contains_key(a) && self.charset.contains_key(b) && a != b ==> !(
            #[trigger] self.charset[a]).overlaps(#[trigger] self.charset[b])
        &&& forall|k: u32|
            self.charset.contains_key(k) ==> {
                &&& key_of((#[trigger] self.charset[k]).ch) == k
                &&& self.charset[k].height == self.step_y
                &&& self.charset[k].width >= 1
                &&& self.charset[k].x + self.charset[k].width <= self.width
                &&& self.charset[k].y + self.charset[k].height <= self.height
                &&& self.charset[k].y + self.step_y <= self.offset_y || (self.charset[k].y
                    == self.offset_y && self.charset[k].x + self.charset[k].width <= self.offset_x)
            }
    }

    /// The cell of `ch`, where the character was placed.
    pub open spec fn cell(self, ch: char) -> Option<Char> {
        if self.charset.contains_key(key_of(ch)) {
            Some(self.charset[key_of(ch)])
        } else {
            None
        }
    }

    /// The atlas with the next cell moved to the start of the next row,
    /// where a cell of width `step_x` would reach the right edge.
    pub open spec fn wrapped(self, step_x: nat) -> Sheet {
        if self.offset_x + step_x >= self.width {
            Sheet { offset_x: 0, offset_y: self.offset_y + self.step_y, ..self }
        } else {
            self
        }
    }

    /// Atlas and outcome after one glyph. The cell is as wide as the least
    /// power of two that holds the glyph and as high as a row. It goes to the
    /// start of the next row where it would reach the right edge. A glyph
    /// whose cell does not lie inside the image is left out after that, and
    /// so is a glyph that is higher than a line, or whose top lies above the
    /// room over the baseline, or whose pixels would leave the image. Any
    /// other glyph is drawn into the cell, its lower edge `ymin` above the
    /// baseline, the cell is recorded for the character, and the next cell
    /// goes to the right of it.
    pub open spec fn place(self, glyph: Shape) -> (Sheet, Placement) {
        if glyph.width > MAX_EXTENT || glyph.bitmap.len() != glyph.width * glyph.height {
            (self, Placement::Malformed)
        } else {
            let step_x = round_up(glyph.width);
            let next = self.wrapped(step_x);
            if next.offset_y > usize::MAX {
                (self, Placement::OutOfAtlas)
            } else if next.offset_x + step_x > self.width || next.offset_y + self.step_y
                > self.height {
                (next, Placement::OutOfAtlas)
            } else if glyph.height > self.line_height {
                (next, Placement::TooTall)
            } else if glyph.height + glyph.ymin > self.baseline {
                (next, Placement::AboveBaseline)
            } else {
                let glyph_offset = self.baseline - (glyph.height + glyph.ymin);
                if glyph.bitmap.len() > 0 && next.offset_y + glyph_offset + glyph.height
                    > self.height {
                    (next, Placement::OutOfAtlas)
                } else {
                    let cell = Char {
                        ch: glyph.ch,
                        x: next.offset_x as usize,
                        y: next.offset_y as usize,
                        width: step_x as usize,
                        height: self.step_y as usize,
                        glyph_offset: glyph_offset as usize,
                        glyph_width: glyph.width as usize,
                    };
                    (
                        Sheet {
                            offset_x: next.offset_x + step_x,
                            data: blit(
                                self.data,
                                self.width as int,
                                next.offset_x as int,
                                next.offset_y + glyph_offset,
                                glyph.width as int,
                                glyph.height as int,
                                glyph.bitmap,
                            ),
                            charset: self.charset.insert(key_of(glyph.ch), cell),
                            ..next
                        },
                        Placement::Placed(cell),
                    )
                }
            }
        }
    }
}

/// Draws one pixel: white, with `alpha` as its alpha.
fn paint(data: &mut Vec<u8>, w: usize, px: usize, py: usize, alpha: u8)
    requires
        px < w,
        (py * w + px) * 4 + 3 < old(data)@.len(),
    ensures
        final(data)@.len() == old(data)@.len(),
        forall|i: int|
            0 <= i < old(data)@.len() ==> #[trigger] final(data)@[i] == (if column_of(i, w as int) == px
                && row_of(i, w as int) == py {
                if i % 4 == 3 {
                    alpha
                } else {
                    255u8
                }
            } else {
                old(data)@[i]
            }),
{
    let ghost pixel = py * w + px;
    proof {
        assert(0 <= py * w) by (nonlinear_arith)
            requires
                0 <= py,
                0 <= w,
        ;
        lemma_fundamental_div_mod_converse(pixel as int, w as int, py as int, px as int);
        assert(data@.len() == data.len());
        assert((py * w + px) * 4 + 3 <= usize::MAX);
    }
    let offset: usize = (py * w + px) * 4;
    data.set(offset, 255);
    data.set(offset + 1, 255);
    data.set(offset + 2, 255);
    data.set(offset + 3, alpha);
    proof {
        assert forall|i: int| 0 <= i < old(data)@.len() implies #[trigger] data@[i] == (if column_of(
            i,
            w as int,
        ) == px && row_of(i, w as int) == py {
            if i % 4 == 3 {
                alpha
            } else {
                255u8
            }
        } else {
            old(data)@[i]
        }) by {
            lemma_fundamental_div_mod(i / 4, w as int);
            assert((w as int) * (py as int) == py * w) by (nonlinear_arith);
            if column_of(i, w as int) == px && row_of(i, w as int) == py {
                assert(i / 4 == pixel);
            } else {
                assert(i / 4 != pixel);
            }
        }
    }
}

/// Draws a glyph of `width` by `height` pixels with its left top corner at
/// `(x0, y0)` into an image of `w` by `h` pixels.
fn draw(
    data: &mut Vec<u8>,
    w: usize,
    h: usize,
    x0: usize,
    y0: usize,
    width: usize,
    height: usize,
    bitmap: &Vec<u8>,
)
    requires
        old(data)@.len() == w * h * 4,
        x0 + width <= w,
        y0 + height <= h,
        bitmap@.len() == width * height,
    ensures
        final(data)@ == blit(old(data)@, w as int, x0 as int, y0 as int, width as int, height as int, bitmap@),
{
    let ghost before = data@;
    assert(data@ =~= drawn_upto(before, w as int, x0 as int, y0 as int, width as int, 0, 0, bitmap@));
    let mut row: usize = 0;
    while row < height
        invariant
            row <= height,
            before.len() == w * h * 4,
            x0 + width <= w,
            y0 + height <= h,
            bitmap@.len() == width * height,
            data@ == drawn_upto(before, w as int, x0 as int, y0 as int, width as int, row as int, 0, bitmap@),
        decreases height - row,
    {
        let mut column: usize = 0;
        while column < width
            invariant
                row < height,
                column <= width,
                before.len() == w * h * 4,
                x0 + width <= w,
                y0 + height <= h,
                bitmap@.len() == width * height,
                data@ == drawn_upto(
                    before,
                    w as int,
                    x0 as int,
                    y0 as int,
                    width as int,
                    row as int,
                    column as int,
                    bitmap@,
                ),
            decreases width - column,
        {
            let px: usize = x0 + column;
            let py: usize = y0 + row;
            proof {
                assert(py * w + px < w * h) by (nonlinear_arith)
                    requires
                        0 <= px < w,
                        0 <= py < h,
                ;
                assert(0 <= row * width && row * width + column < width * height) by (nonlinear_arith)
                    requires
                        0 <= column < width,
                        0 <= row < height,
                ;
                assert(bitmap@.len() == bitmap.len());
            }
            let alpha: u8 = bitmap[row * width + column];
            let ghost earlier = data@;
            paint(data, w, px, py, alpha);
            proof {
                assert(data@ =~= drawn_upto(
                    before,
                    w as int,
                    x0 as int,
                    y0 as int,
                    width as int,
                    row as int,
                    column + 1,
                    bitmap@,
                )) by {
                    assert forall|i: int| 0 <= i < before.len() implies data@[i] == drawn_upto(
                        before,
                        w as int,
                        x0 as int,
                        y0 as int,
                        width as int,
                        row as int,
                        column + 1,
                        bitmap@,
                    )[i] by {
                        assert(earlier[i] == drawn_upto(
                            before,
                            w as int,
                            x0 as int,
                            y0 as int,
                            width as int,
                            row as int,
                            column as int,
                            bitmap@,
                        )[i]);
                    }
                }
            }
            column = column + 1;
        }
        assert(data@ =~= drawn_upto(
            before,
            w as int,
            x0 as int,
            y0 as int,
            width as int,
            row + 1,
            0,
            bitmap@,
        ));
        row = row + 1;
    }
}

/// A glyph atlas in the making: an image of four bytes to the pixel, the
/// place of the next cell, and the cells of the characters placed so far.
pub struct Atlas {
    width: usize,
    height: usize,
    line_height: usize,
    baseline: i32,
    step_y: usize,
    offset_x: usize,
    offset_y: usize,
    data: Vec<u8>,
    charset: HashMap<u32, Char>,
}

impl View for Atlas {
    type V = Sheet;

    closed spec fn view(&self) -> Sheet {
        Sheet {
            width: self.width as nat,
            height: self.height as nat,
            line_height: self.line_height as nat,
            baseline: self.baseline as int,
            step_y: self.step_y as nat,
            offset_x: self.offset_x as nat,
            offset_y: self.offset_y as nat,
            data: self.data@,
            charset: self.charset@,
        }
    }
}

impl Atlas {
    /// The atlas behind it is well formed.
    pub open spec fn wf(&self) -> bool {
        self@.wf()
    }

    /// An empty, fully transparent atlas of `width` by `height` pixels for
    /// glyphs of a line that is `line_height` pixels high with its baseline
    /// `baseline` pixels below the top.
    pub fn create(width: usize, height: usize, line_height: usize, baseline: i32) -> (atlas: Atlas)
        requires
            width * height * 4 <= usize::MAX,
            line_height <= MAX_EXTENT,
        ensures
            atlas.wf(),
            atlas@ == (Sheet {
                width: width as nat,
                height: height as nat,
                line_height: line_height as nat,
                baseline: baseline as int,
                step_y: round_up(line_height as nat),
                offset_x: 0,
                offset_y: 0,
                data: Seq::new((width * height * 4) as nat, |i: int| 0u8),
                charset: Map::empty(),
            }),
    {
        proof {
            assert(width * height <= width * height * 4) by (nonlinear_arith)
                requires
                    0 <= width,
                    0 <= height,
            ;
        }
        let size: usize = width * height * 4;
        let mut data: Vec<u8> = Vec::new();
        let mut k: usize = 0;
        while k < size
            invariant
                k <= size,
                data@.len() == k,
                forall|i: int| 0 <= i < k ==> data@[i] == 0u8,
            decreases size - k,
        {
            data.push(0);
            k = k + 1;
        }
        assert(data@ =~= Seq::new((width * height * 4) as nat, |i: int| 0u8));
        let atlas = Atlas {
            width,
            height,
            line_height,
            baseline,
            step_y: round_up_pow_2(line_height),
            offset_x: 0,
            offset_y: 0,
            data,
            charset: HashMap::new(),
        };
        atlas
    }

    /// Width of the image in pixels.
    pub fn width(&self) -> (width: usize)
        ensures
            width == self@.width,
    {
        self.width
    }

    /// Height of the image in pixels.
    pub fn height(&self) -> (height: usize)
        ensures
            height == self@.height,
    {
        self.height
    }

    /// Height of a row of cells in pixels.
    pub fn step_y(&self) -> (step: usize)
        ensures
            step == self@.step_y,
    {
        self.step_y
    }

    /// The image, four bytes to the pixel, row by row.
    pub fn data(&self) -> (data: &Vec<u8>)
        ensures
            data@ == self@.data,
    {
        &self.data
    }

    /// The cells of the characters placed so far, by the characters' code
    /// points.
    pub fn charset(&self) -> (charset: &HashMap<u32, Char>)
        ensures
            charset@ == self@.charset,
    {
        &self.charset
    }

    /// Number of characters that have a cell.
    pub fn len(&self) -> (count: usize)
        ensures
            count == self@.charset.dom().len(),
    {
        broadcast use vstd::std_specs::hash::group_hash_axioms;

        self.charset.len()
    }

    /// The cell of `ch`, where the character was placed.
    pub fn get(&self, ch: char) -> (cell: Option<Char>)
        ensures
            cell == self@.cell(ch),
    {
        broadcast use vstd::std_specs::hash::group_hash_axioms;

        let key: u32 = ch as u32;
        match self.charset.get(&key) {
            Some(cell) => Some(*cell),
            None => None,
        }
    }

    /// The cell to draw `ch` with: its own, or that of the missing
    /// character where it has none, or an empty cell where that is missing
    /// too.
    pub fn get_or_missing(&self, ch: char) -> (cell: Char)
        ensures
            cell == match self@.cell(ch) {
                Some(own) => own,
                None => match self@.cell(MISSING_CHAR) {
                    Some(missing) => missing,
                    None => Char {
                        ch: MISSING_CHAR,
                        x: 0,
                        y: 0,
                        width: 0,
                        height: 0,
                        glyph_offset: 0,
                        glyph_width: 0,
                    },
                },
            },
    {
        match self.get(ch) {
            Some(own) => own,
            None => match self.get(MISSING_CHAR) {
                Some(missing) => missing,
                None => Char {
                    ch: MISSING_CHAR,
                    x: 0,
                    y: 0,
                    width: 0,
                    height: 0,
                    glyph_offset: 0,
                    glyph_width: 0,
                },
            },
        }
    }
}

impl Atlas {
    /// Records `cell` for its character.
    fn put(&mut self, cell: Char)
        ensures
            final(self).charset@ == old(self).charset@.insert(key_of(cell.ch), cell),
            final(self).width == old(self).width,
            final(self).height == old(self).height,
            final(self).line_height == old(self).line_height,
            final(self).baseline == old(self).baseline,
            final(self).step_y == old(self).step_y,
            final(self).offset_x == old(self).offset_x,
            final(self).offset_y == old(self).offset_y,
            final(self).data == old(self).data,
    {
        broadcast use vstd::std_specs::hash::group_hash_axioms;

        let key: u32 = cell.ch as u32;
        self.charset.insert(key, cell);
    }

    /// Places one glyph: picks its cell, draws it, and records the cell for
    /// the glyph's character. A glyph that is too tall for the line, or
    /// reaches above the room over the baseline, is left out; a glyph that
    /// would be drawn outside the image, or whose bitmap does not match its
    /// size, changes no pixel.
    pub fn place(&mut self, glyph: &Glyph) -> (placement: Placement)
        requires
            old(self).wf(),
        ensures
            final(self).wf(),
            (final(self)@, placement) == old(self)@.place(glyph@),
    {
        let width: usize = glyph.width;
        let height: usize = glyph.height;
        if width > MAX_EXTENT {
            return Placement::Malformed;
        }
        let matches: bool = if width == 0 || height == 0 {
            proof {
                assert(width * height == 0) by (nonlinear_arith)
                    requires
                        width == 0 || height == 0,
                ;
            }
            glyph.bitmap.len() == 0
        } else {
            proof {
                let length = glyph.bitmap@.len() as int;
                let across = width as int;
                lemma_fundamental_div_mod(length, across);
                if length / across == height && length % across == 0 {
                    assert(length == width * height) by (nonlinear_arith)
                        requires
                            length == across * (length / across) + length % across,
                            length / across == height,
                            length % across == 0,
                            across == width,
                    ;
                }
                if length == width * height {
                    assert(length == height * across + 0) by (nonlinear_arith)
                        requires
                            length == width * height,
                            across == width,
                    ;
                    lemma_fundamental_div_mod_converse(length, across, height as int, 0);
                }
            }
            glyph.bitmap.len() / width == height && glyph.bitmap.len() % width == 0
        };
        if !matches {
            return Placement::Malformed;
        }
        let step_x: usize = round_up_pow_2(width);
        let wraps: bool = step_x >= self.width || self.offset_x >= self.width - step_x;
        let ghost next = self@.wrapped(step_x as nat);
        let ghost before = self@;
        if wraps {
            match self.offset_y.checked_add(self.step_y) {
                None => {
                    return Placement::OutOfAtlas;
                },
                Some(below) => {
                    self.offset_x = 0;
                    self.offset_y = below;
                },
            }
        }
        assert(self@ == next);
        proof {
            lemma_wrapped_wf(before, step_x as nat);
        }
        if step_x > self.width || self.offset_x > self.width - step_x || self.step_y > self.height
            || self.offset_y > self.height - self.step_y {
            return Placement::OutOfAtlas;
        }
        if height > self.line_height {
            return Placement::TooTall;
        }
        let top: i64 = height as i64 + glyph.ymin as i64;
        if top > self.baseline as i64 {
            return Placement::AboveBaseline;
        }
        let glyph_offset: usize = (self.baseline as i64 - top) as usize;
        if glyph.bitmap.len() > 0 {
            let fits: bool = glyph_offset <= self.height && height <= self.height - glyph_offset
                && self.offset_y <= self.height - glyph_offset - height;
            if !fits {
                return Placement::OutOfAtlas;
            }
            draw(
                &mut self.data,
                self.width,
                self.height,
                self.offset_x,
                self.offset_y + glyph_offset,
                width,
                height,
                &glyph.bitmap,
            );
        } else {
            assert(self.data@ =~= blit(
                self.data@,
                self.width as int,
                self.offset_x as int,
                self.offset_y + glyph_offset,
                width as int,
                height as int,
                glyph.bitmap@,
            )) by {
                assert(width * height == 0);
                assert(width == 0 || height == 0) by (nonlinear_arith)
                    requires
                        width * height == 0,
                        width >= 0,
                        height >= 0,
                ;
            }
        }
        let cell = Char {
            ch: glyph.ch,
            x: self.offset_x,
            y: self.offset_y,
            width: step_x,
            height: self.step_y,
            glyph_offset,
            glyph_width: width,
        };
        self.put(cell);
        self.offset_x = self.offset_x + step_x;
        proof {
            lemma_placed_wf(next, cell, self.data@);
        }
        Placement::Placed(cell)
    }

    /// Places the glyphs one after the other and answers with how each
    /// placement ended.
    pub fn bake(&mut self, glyphs: &Vec<Glyph>) -> (placements: Vec<Placement>)
        requires
            old(self).wf(),
        ensures
            final(self).wf(),
            final(self)@ == baked(old(self)@, shapes(glyphs@), glyphs@.len() as int),
            placements@.len() == glyphs@.len(),
            forall|k: int|
                0 <= k < glyphs@.len() ==> #[trigger] placements@[k] == baked(
                    old(self)@,
                    shapes(glyphs@),
                    k,
                ).place(glyphs@[k]@).1,
    {
        let mut placements: Vec<Placement> = Vec::new();
        let mut done: usize = 0;
        while done < glyphs.len()
            invariant
                self.wf(),
                done <= glyphs@.len(),
                placements@.len() == done,
                self@ == baked(old(self)@, shapes(glyphs@), done as int),
                forall|k: int|
                    0 <= k < done ==> #[trigger] placements@[k] == baked(old(self)@, shapes(glyphs@), k).place(
                        glyphs@[k]@,
                    ).1,
            decreases glyphs@.len() - done,
        {
            assert(shapes(glyphs@)[done as int] == glyphs@[done as int]@);
            let placement = self.place(&glyphs[done]);
            placements.push(placement);
            done = done + 1;
        }
        placements
    }
}

/// The glyphs of `glyphs` as values.
pub open spec fn shapes(glyphs: Seq<Glyph>) -> Seq<Shape> {
    glyphs.map_values(|glyph: Glyph| glyph@)
}

/// The atlas after the first `count` of `glyphs` were placed in order.
pub open spec fn baked(sheet: Sheet, glyphs: Seq<Shape>, count: int) -> Sheet
    decreases count,
{
    if count <= 0 {
        sheet
    } else {
        baked(sheet, glyphs, count - 1).place(glyphs[count - 1]).0
    }
}

/// Moving the next cell to a new row keeps the atlas well formed.
pub proof fn lemma_wrapped_wf(sheet: Sheet, step_x: nat)
    requires
        sheet.wf(),
        sheet.wrapped(step_x).offset_y <= usize::MAX,
    ensures
        sheet.wrapped(step_x).wf(),
{
}

/// Recording a cell of a row's height at the place of the next cell, and
/// moving that place to the right of it, keeps the atlas well formed.
pub proof fn lemma_placed_wf(sheet: Sheet, cell: Char, data: Seq<u8>)
    requires
        sheet.wf(),
        cell.x == sheet.offset_x,
        cell.y == sheet.offset_y,
        cell.height == sheet.step_y,
        cell.width >= 1,
        cell.x + cell.width <= sheet.width,
        cell.y + cell.height <= sheet.height,
        data.len() == sheet.data.len(),
    ensures
        (Sheet {
            offset_x: (sheet.offset_x + cell.width) as nat,
            charset: sheet.charset.insert(key_of(cell.ch), cell),
            data,
            ..sheet
        }).wf(),
{
    let after = sheet.charset.insert(key_of(cell.ch), cell);
    assert forall|a: u32, b: u32|
        after.contains_key(a) && after.contains_key(b) && a != b implies !(#[trigger] after[a]).overlaps(
        #[trigger] after[b],
    ) by {
        if a != key_of(cell.ch) {
            assert(after[a] == sheet.charset[a]);
        }
        if b != key_of(cell.ch) {
            assert(after[b] == sheet.charset[b]);
        }
    }
}

/// Placing a glyph keeps the atlas well formed, whatever the outcome.
pub proof fn lemma_place_wf(sheet: Sheet, glyph: Shape)
    requires
        sheet.wf(),
    ensures
        sheet.place(glyph).0.wf(),
{
    if !(glyph.width > MAX_EXTENT || glyph.bitmap.len() != glyph.width * glyph.height) {
        let step_x = round_up(glyph.width);
        assert(rounds_up(glyph.width, step_x)) by {
            lemma_round_up_exists(glyph.width);
        }
        assert(step_x >= 1) by {
            reveal_with_fuel(is_pow2, 1);
        }
        let next = sheet.wrapped(step_x);
        if next.offset_y <= usize::MAX {
            lemma_wrapped_wf(sheet, step_x);
            lemma_max_extent_is_pow2();
            if step_x > MAX_EXTENT {
                lemma_pow2_gap(MAX_EXTENT as nat, step_x);
            }
            if let Placement::Placed(cell) = sheet.place(glyph).1 {
                lemma_placed_wf(next, cell, sheet.place(glyph).0.data);
            }
        }
    }
}

/// Every value up to the greatest extent has a least power of two that is
/// not below it.
pub proof fn lemma_round_up_exists(value: nat)
    requires
        value <= MAX_EXTENT,
    ensures
        rounds_up(value, round_up(value)),
    decreases value,
{
    if value <= 1 {
        assert(rounds_up(value, 1));
    } else {
        let half = (value + 1) / 2;
        lemma_round_up_exists(half);
        let rounded = round_up(half);
        assert(rounded >= 1) by {
            reveal_with_fuel(is_pow2, 1);
        }
        assert(is_pow2(2 * rounded)) by {
            assert((2 * rounded) / 2 == rounded);
        }
        assert(rounds_up(value, 2 * rounded));
    }
}

/// Placing any number of glyphs keeps the atlas well formed.
pub proof fn lemma_baked_wf(sheet: Sheet, glyphs: Seq<Shape>, count: int)
    requires
        sheet.wf(),
    ensures
        baked(sheet, glyphs, count).wf(),
    decreases count,
{
    if count > 0 {
        lemma_baked_wf(sheet, glyphs, count - 1);
        lemma_place_wf(baked(sheet, glyphs, count - 1), glyphs[count - 1]);
    }
}

/// However many glyphs were placed, every character has at most one cell,
/// kept under the character's own code point, and the cells of two
/// different characters share no pixel.
pub proof fn lemma_cells_do_not_overlap(sheet: Sheet, glyphs: Seq<Shape>, count: int, a: char, b: char)
    requires
        sheet.wf(),
        baked(sheet, glyphs, count).cell(a) is Some,
        baked(sheet, glyphs, count).cell(b) is Some,
        a != b,
    ensures
        baked(sheet, glyphs, count).cell(a)->0.ch == a,
        baked(sheet, glyphs, count).cell(b)->0.ch == b,
        !baked(sheet, glyphs, count).cell(a)->0.overlaps(baked(sheet, glyphs, count).cell(b)->0),
{
    lemma_baked_wf(sheet, glyphs, count);
    let charset = baked(sheet, glyphs, count).charset;
    assert(key_of(charset[key_of(a)].ch) == key_of(a));
    assert(key_of(charset[key_of(b)].ch) == key_of(b));
}

/// However many glyphs were placed, every cell lies inside the image.
pub proof fn lemma_cells_lie_in_the_atlas(sheet: Sheet, glyphs: Seq<Shape>, count: int, ch: char)
    requires
        sheet.wf(),
        baked(sheet, glyphs, count).cell(ch) is Some,
    ensures
        baked(sheet, glyphs, count).cell(ch)->0.x + baked(sheet, glyphs, count).cell(ch)->0.width
            <= sheet.width,
        baked(sheet, glyphs, count).cell(ch)->0.y + baked(sheet, glyphs, count).cell(ch)->0.height
            <= sheet.height,
{
    lemma_baked_wf(sheet, glyphs, count);
    lemma_baked_size(sheet, glyphs, count);
    let charset = baked(sheet, glyphs, count).charset;
    assert(charset[key_of(ch)].x + charset[key_of(ch)].width <= baked(sheet, glyphs, count).width);
}

/// Placing glyphs never changes the size of the image.
pub proof fn lemma_baked_size(sheet: Sheet, glyphs: Seq<Shape>, count: int)
    ensures
        baked(sheet, glyphs, count).width == sheet.width,
        baked(sheet, glyphs, count).height == sheet.height,
    decreases count,
{
    if count > 0 {
        lemma_baked_size(sheet, glyphs, count - 1);
    }
}

/// A glyph that is placed gives its character the cell it was placed in,
/// and a character that has a cell keeps one whatever is placed after it.
pub proof fn lemma_place_lists(sheet: Sheet, glyph: Shape, ch: char)
    requires
        sheet.wf(),
    ensures
        sheet.place(glyph).1 matches Placement::Placed(cell) ==> sheet.place(glyph).0.cell(glyph.ch)
            == Some(cell),
        sheet.cell(ch) is Some ==> sheet.place(glyph).0.cell(ch) is Some,
{
}

/// After any number of glyphs, every character whose glyph was placed has
/// a cell: together with the law that no character has two, it has exactly
/// one.
pub proof fn lemma_placed_characters_are_listed(sheet: Sheet, glyphs: Seq<Shape>, k: int, count: int)
    requires
        sheet.wf(),
        0 <= k < count,
        baked(sheet, glyphs, k).place(glyphs[k]).1 is Placed,
    ensures
        baked(sheet, glyphs, count).cell(glyphs[k].ch) is Some,
    decreases count,
{
    lemma_baked_wf(sheet, glyphs, count - 1);
    if count == k + 1 {
        lemma_place_lists(baked(sheet, glyphs, k), glyphs[k], glyphs[k].ch);
    } else {
        lemma_placed_characters_are_listed(sheet, glyphs, k, count - 1);
        lemma_place_lists(baked(sheet, glyphs, count - 1), glyphs[count - 1], glyphs[k].ch);
    }
}

/// What encoding an image of `width` by `height` pixels, four 8-bit
/// channels to the pixel, gives as a PNG file.
pub uninterp spec fn png_encoded(data: Seq<u8>, width: usize, height: usize) -> Option<Seq<u8>>;

/// The outcome of an encoding with its buffer taken by its view.
pub open spec fn encoded_view(outcome: Option<Vec<u8>>) -> Option<Seq<u8>> {
    match outcome {
        Some(bytes) => Some(bytes@),
        None => None,
    }
}

/// Runs `zune_png::PngEncoder::encode` over `data` as an RGBA image with
/// 8-bit channels, into a growing buffer. The encoder first asks
/// `zune_core::options::EncoderOptions::height`, which stops the program
/// on a height of zero, and sizes its scanline buffer by the height alone
/// where the width is zero: neither image is handed to it. It refuses data
/// whose length is not `width * height * 4`. Of data of that length it
/// makes a file: it filters each row, stores the rows in a zlib stream
/// without compressing them and writes the chunks to the buffer, and no
/// step of these can fail. Which bytes the file holds is only named.
#[verifier::external_body]
fn encode_rgba8(data: &[u8], width: usize, height: usize) -> (outcome: Option<Vec<u8>>)
    requires
        width > 0,
        height > 0,
    ensures
        encoded_view(outcome) == png_encoded(data@, width, height),
        outcome is Some <==> data@.len() == width * height * 4,
{
    let options = zune_png::zune_core::options::EncoderOptions::new(
        width,
        height,
        zune_png::zune_core::colorspace::ColorSpace::RGBA,
        zune_png::zune_core::bit_depth::BitDepth::Eight,
    );
    let mut bytes: Vec<u8> = Vec::new();
    match zune_png::PngEncoder::new(data, options).encode(&mut bytes) {
        Ok(_) => Some(bytes),
        Err(_) => None,
    }
}

/// What `encode` answers for each outcome of the encoder.
pub open spec fn encoded_or_error(encoded: Option<Seq<u8>>) -> Result<Seq<u8>, Seq<char>> {
    match encoded {
        Some(bytes) => Ok(bytes),
        None => Err("atlas image could not be encoded"@),
    }
}

/// A file or an error with buffers and strings taken by their view.
pub open spec fn file_view(result: Result<Vec<u8>, FontError>) -> Result<Seq<u8>, Seq<char>> {
    match result {
        Ok(bytes) => Ok(bytes@),
        Err(error) => Err(error@),
    }
}

/// Turns the outcome of the encoder into the file, or into the error that
/// says that there is none.
pub fn file_from_encoding(encoded: Option<Vec<u8>>) -> (file: Result<Vec<u8>, FontError>)
    ensures
        file_view(file) == encoded_or_error(encoded_view(encoded)),
{
    match encoded {
        Some(bytes) => Ok(bytes),
        None => Err(FontError::new("atlas image could not be encoded")),
    }
}

/// What `Atlas::encode` answers for an image of `width` by `height` pixels:
/// an image without pixels has no file; any other has the file that the
/// encoder makes of it, where it makes one.
pub open spec fn encoded_file(data: Seq<u8>, width: usize, height: usize) -> Result<Seq<u8>, Seq<char>> {
    if width == 0 || height == 0 {
        Err("atlas image could not be encoded"@)
    } else {
        encoded_or_error(png_encoded(data, width, height))
    }
}

impl Atlas {
    /// The atlas image as a PNG file. An atlas without pixels has none; a
    /// well-formed atlas with pixels always has one.
    pub fn encode(&self) -> (file: Result<Vec<u8>, FontError>)
        ensures
            file_view(file) == encoded_file(self@.data, self@.width as usize, self@.height as usize),
            self@.width == 0 || self@.height == 0 ==> file is Err,
            self.wf() && self@.width > 0 && self@.height > 0 ==> file is Ok,
    {
        if self.width == 0 || self.height == 0 {
            return file_from_encoding(None);
        }
        file_from_encoding(encode_rgba8(self.data.as_slice(), self.width, self.height))
    }
}

/// The name of a baked font's texture: family, weight, style, size and
/// resolution scale, joined by hyphens, as a PNG file in the cache
/// directory. Size and scale are whole numbers in the unit that the caller
/// counts them in: two sizes or scales share a file exactly where they are
/// the same number of that unit.
pub open spec fn texture_path_of(
    cache: Seq<char>,
    family: Seq<char>,
    weight: u16,
    style: Seq<char>,
    size: u32,
    scale: u32,
) -> Seq<char> {
    cache + "/"@ + family + "-"@ + crate::text::decimal(weight as nat) + "-"@ + style + "-"@
        + crate::text::decimal(size as nat) + "-"@ + crate::text::decimal(scale as nat) + ".png"@
}

/// The path of a baked font's texture in the cache directory.
pub fn texture_path(cache: &str, family: &str, weight: u16, style: &str, size: u32, scale: u32) -> (path:
    String)
    ensures
        path@ == texture_path_of(cache@, family@, weight, style@, size, scale),
{
    let name: String = cache.to_owned().concat("/").concat(family).concat("-");
    let name: String = with_number(name.as_str(), weight as usize).concat("-").concat(style).concat("-");
    let name: String = with_number(name.as_str(), size as usize).concat("-");
    let path: String = with_number(name.as_str(), scale as usize).concat(".png");
    assert(path@ =~= texture_path_of(cache@, family@, weight, style@, size, scale));
    path
}

} // verus!
