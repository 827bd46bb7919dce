//! What a baked font records of each character.

use vstd::prelude::*;

verus! {

/// The character that stands in for every character a font lacks.
pub const MISSING_CHAR: char = '\u{25A1}';

/// Why a font could not be loaded or baked, as a message.
#[derive(Debug)]
pub struct FontError(pub String);

impl View for FontError {
    type V = Seq<char>;

    open spec fn view(&self) -> Seq<char> {
        self.0@
    }
}

impl FontError {
    /// The error that says `message`.
    pub fn new(message: &str) -> (error: FontError)
        ensures
            error@ == message@,
    {
        FontError(message.to_owned())
    }

    /// The message.
    pub fn message(&self) -> (message: String)
        ensures
            message@ == self@,
    {
        self.0.clone()
    }
}

/// Where a character's glyph lies in the atlas, in pixels: the cell's left
/// top corner and size, how far below the cell's top the glyph starts, and
/// how wide the glyph itself is.
#[derive(Clone, Copy, Debug, PartialEq, Eq, Structural)]
pub struct Char {
    pub ch: char,
    pub x: usize,
    pub y: usize,
    pub width: usize,
    pub height: usize,
    pub glyph_offset: usize,
    pub glyph_width: usize,
}

impl Char {
    /// True when the cells of `self` and `other` share a pixel.
    pub open spec fn overlaps(self, other: Char) -> bool {
        &&& self.x < other.x + other.width
        &&& other.x < self.x + self.width
        &&& self.y < other.y + other.height
        &&& other.y < self.y + self.height
    }
}

} // verus!
