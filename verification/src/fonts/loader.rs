//! Alphabets to bake, and how baked fonts are named and found.

use crate::fonts::font::MISSING_CHAR;
use vstd::prelude::*;

verus! {

/// The place of a font in the registry of loaded fonts.
#[derive(Debug, Clone, Copy, PartialEq, Eq, Structural)]
pub struct FontIndex(pub usize);

impl Default for FontIndex {
    /// The place of the font that was loaded first.
    fn default() -> (index: FontIndex)
        ensures
            index == FontIndex(0),
    {
        FontIndex(0)
    }
}

/// `String::push`: appends one character.
#[verifier::external_body]
fn push_char(text: &mut String, c: char)
    ensures
        final(text)@ == old(text)@.push(c),
{
    text.push(c)
}

/// `char::from_u32`: the character of a code point, which exists for every
/// code up to `0x10FFFF` outside the surrogate range.
#[verifier::external_body]
fn char_of(code: u32) -> (c: Option<char>)
    ensures
        c == if code < 0xD800 || (0xDFFF < code && code <= 0x10FFFF) {
            Some(code as char)
        } else {
            None::<char>
        },
{
    char::from_u32(code)
}

/// The characters from code `first` to code `last`, in order, behind the
/// missing character.
pub open spec fn alphabet(first: u32, last: u32) -> Seq<char> {
    seq![MISSING_CHAR] + Seq::new((last - first + 1) as nat, |i: int| ((first + i) as u32) as char)
}

/// The alphabet of codes `first` to `last` behind the missing character.
fn alphabet_of(first: u32, last: u32) -> (text: String)
    requires
        first <= last < 0xD800,
    ensures
        text@ == alphabet(first, last),
{
    let mut text = String::new();
    push_char(&mut text, MISSING_CHAR);
    let mut code: u32 = first;
    while code <= last
        invariant
            first <= code <= last + 1,
            last < 0xD800,
            text@.len() == 1 + (code - first),
            text@[0] == MISSING_CHAR,
            forall|i: int| 1 <= i < 1 + (code - first) ==> #[trigger] text@[i] == ((first + i - 1) as u32) as char,
        decreases last + 1 - code,
    {
        match char_of(code) {
            Some(c) => {
                push_char(&mut text, c);
            },
            None => {},
        }
        code = code + 1;
    }
    assert(text@ =~= alphabet(first, last));
    text
}

/// The missing character followed by the printable ASCII characters, from
/// the space to the tilde.
pub fn ascii() -> (text: String)
    ensures
        text@ == alphabet(0x20, 0x7e),
        text@.len() == 96,
{
    alphabet_of(0x20, 0x7e)
}

/// The missing character followed by the Cyrillic block, from U+0400 to
/// U+04FF.
pub fn cyrillic() -> (text: String)
    ensures
        text@ == alphabet(0x0400, 0x04FF),
        text@.len() == 257,
{
    alphabet_of(0x0400, 0x04FF)
}

/// How far a font style is from the normal one, for matching.
pub open spec fn style_rank_of(style: Seq<char>) -> u32 {
    if style == "normal"@ {
        0
    } else if style == "italic"@ {
        1
    } else if style == "oblique"@ {
        2
    } else {
        9
    }
}

/// How far a font style is from the normal one, for matching: zero for
/// normal, one for italic, two for oblique, nine for anything else.
pub fn style_rank(style: &str) -> (rank: u32)
    ensures
        rank == style_rank_of(style@),
{
    let style: String = style.to_owned();
    if style == "normal".to_owned() {
        0
    } else if style == "italic".to_owned() {
        1
    } else if style == "oblique".to_owned() {
        2
    } else {
        9
    }
}

/// What a loaded font is registered under: family, weight, style, and size
/// in thousandths of a pixel.
#[derive(Debug)]
pub struct Record {
    pub family: String,
    pub weight: u16,
    pub style: String,
    pub size: u32,
}

/// A record as a value.
pub ghost struct Face {
    pub family: Seq<char>,
    pub weight: u16,
    pub style: Seq<char>,
    pub size: u32,
}

impl View for Record {
    type V = Face;

    open spec fn view(&self) -> Face {
        Face { family: self.family@, weight: self.weight, style: self.style@, size: self.size }
    }
}

/// The square of the distance between a face and what is looked for: size
/// in thousandths, weight and style rank each count with their difference.
pub open spec fn distance(face: Face, weight: u16, style: Seq<char>, size: u32) -> int {
    (face.size - size) * (face.size - size) + (face.weight - weight) * (face.weight - weight) + (
    style_rank_of(face.style) - style_rank_of(style)) * (style_rank_of(face.style) - style_rank_of(
        style,
    ))
}

/// True when `index` names the best match among `faces`: the first face of
/// the family that no other face of the family is nearer than; or the
/// first place of the registry where the family has no face at all.
pub open spec fn is_match(
    faces: Seq<Face>,
    family: Seq<char>,
    weight: u16,
    style: Seq<char>,
    size: u32,
    index: int,
) -> bool {
    if exists|i: int| 0 <= i < faces.len() && faces[i].family == family {
        &&& 0 <= index < faces.len()
        &&& faces[index].family == family
        &&& forall|j: int|
            0 <= j < faces.len() && faces[j].family == family ==> distance(
                faces[index],
                weight,
                style,
                size,
            ) <= distance(#[trigger] faces[j], weight, style, size)
        &&& forall|j: int|
            0 <= j < index && faces[j].family == family ==> distance(faces[index], weight, style, size)
                < distance(#[trigger] faces[j], weight, style, size)
    } else {
        index == 0
    }
}

/// The faces of `records`, in order.
pub open spec fn faces(records: Seq<Record>) -> Seq<Face> {
    records.map_values(|record: Record| record@)
}

/// The difference of two numbers, squared.
fn squared_difference(a: u32, b: u32) -> (square: u128)
    ensures
        square == (a - b) * (a - b),
        square <= 0xFFFF_FFFE_0000_0001,
{
    let gap: u128 = if a >= b {
        (a - b) as u128
    } else {
        (b - a) as u128
    };
    assert(gap * gap == (a - b) * (a - b)) by (nonlinear_arith)
        requires
            gap == a - b || gap == b - a,
    ;
    assert(gap * gap <= 0xFFFF_FFFF * 0xFFFF_FFFF) by (nonlinear_arith)
        requires
            0 <= gap <= 0xFFFF_FFFF,
    ;
    gap * gap
}

/// The registry of loaded fonts, in the order they were loaded.
pub struct FontLoader {
    registry: Vec<Record>,
}

impl View for FontLoader {
    type V = Seq<Face>;

    closed spec fn view(&self) -> Seq<Face> {
        faces(self.registry@)
    }
}

impl FontLoader {
    /// A registry without fonts.
    pub fn new() -> (loader: FontLoader)
        ensures
            loader@ == Seq::<Face>::empty(),
    {
        let loader = FontLoader { registry: Vec::new() };
        assert(loader@ =~= Seq::<Face>::empty());
        loader
    }

    /// Number of registered fonts.
    pub fn len(&self) -> (count: usize)
        ensures
            count == self@.len(),
    {
        self.registry.len()
    }

    /// Registers a loaded font and answers with its place.
    pub fn load_font(&mut self, family: &str, weight: u16, style: &str, size: u32) -> (index: FontIndex)
        ensures
            final(self)@ == old(self)@.push(Face { family: family@, weight, style: style@, size }),
            index.0 == old(self)@.len(),
    {
        let index: usize = self.registry.len();
        let ghost before = self@;
        self.registry.push(Record { family: family.to_owned(), weight, style: style.to_owned(), size });
        assert(self@ =~= before.push(Face { family: family@, weight, style: style@, size }));
        FontIndex(index)
    }

    /// The registered font of `family` that is nearest to the wanted
    /// weight, style and size; of several that are equally near, the one
    /// loaded first. Where the family has no font, the first font of the
    /// registry stands in.
    pub fn match_font(&self, family: &str, weight: u16, style: &str, size: u32) -> (index: FontIndex)
        ensures
            is_match(self@, family@, weight, style@, size, index.0 as int),
    {
        let wanted: String = family.to_owned();
        let wanted_rank: u32 = style_rank(style);
        let mut best: usize = 0;
        let mut best_diff: Option<u128> = None;
        let mut index: usize = 0;
        while index < self.registry.len()
            invariant
                index <= self.registry@.len(),
                wanted@ == family@,
                wanted_rank == style_rank_of(style@),
                faces(self.registry@).len() == self.registry@.len(),
                match best_diff {
                    None => best == 0 && forall|j: int|
                        0 <= j < index ==> (#[trigger] faces(self.registry@)[j]).family != family@,
                    Some(diff) => {
                        &&& best < index
                        &&& faces(self.registry@)[best as int].family == family@
                        &&& diff == distance(faces(self.registry@)[best as int], weight, style@, size)
                        &&& forall|j: int|
                            0 <= j < index && faces(self.registry@)[j].family == family@ ==> diff
                                <= distance(#[trigger] faces(self.registry@)[j], weight, style@, size)
                        &&& forall|j: int|
                            0 <= j < best && faces(self.registry@)[j].family == family@ ==> diff
                                < distance(#[trigger] faces(self.registry@)[j], weight, style@, size)
                    },
                },
            decreases self.registry@.len() - index,
        {
            let record = &self.registry[index];
            assert(faces(self.registry@)[index as int] == record@);
            if record.family == wanted {
                let rank: u32 = style_rank(record.style.as_str());
                let diff: u128 = squared_difference(record.size, size) + squared_difference(
                    record.weight as u32,
                    weight as u32,
                ) + squared_difference(rank, wanted_rank);
                let better: bool = match best_diff {
                    None => true,
                    Some(least) => diff < least,
                };
                if better {
                    best_diff = Some(diff);
                    best = index;
                }
            }
            index = index + 1;
        }
        FontIndex(best)
    }
}

} // verus!
