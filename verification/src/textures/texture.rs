//! Texture handles and the error that loading one can end in.

use vstd::prelude::*;

verus! {

/// A texture on the device: image, memory and view as raw 64-bit handles,
/// and the size in pixels. Two textures are equal when all four agree;
/// `same_image` tells whether two stand for the same device image, which is
/// what a texture table goes by.
#[derive(Debug, Copy, Clone, Eq, Hash)]
pub struct Texture {
    pub image: u64,
    pub memory: u64,
    pub view: u64,
    pub size: [u32; 2],
}

impl PartialEq for Texture {
    fn eq(&self, other: &Texture) -> (equal: bool) {
        let equal = self.image == other.image && self.memory == other.memory && self.view
            == other.view && self.size[0] == other.size[0] && self.size[1] == other.size[1];
        proof {
            if equal {
                assert(self.size =~= other.size);
            }
        }
        equal
    }
}

impl vstd::std_specs::cmp::PartialEqSpecImpl for Texture {
    open spec fn obeys_eq_spec() -> bool {
        true
    }

    open spec fn eq_spec(&self, other: &Texture) -> bool {
        *self == *other
    }
}

impl Texture {
    /// The path under which the fallback texture is always found.
    pub const FALLBACK: &'static str = "<fallback>";

    /// The path under which the blank texture is always found.
    pub const BLANK: &'static str = "<blank>";

    /// True when both handles stand for the same device image.
    pub fn same_image(&self, other: &Texture) -> (same: bool)
        ensures
            same == (self.image == other.image),
    {
        self.image == other.image
    }
}

/// Why a texture could not be read or decoded, as a message.
#[derive(Debug)]
pub struct TextureError(pub String);

impl View for TextureError {
    type V = Seq<char>;

    open spec fn view(&self) -> Seq<char> {
        self.0@
    }
}

impl TextureError {
    /// The error that says `message`.
    pub fn new(message: &str) -> (error: TextureError)
        ensures
            error@ == message@,
    {
        TextureError(message.to_owned())
    }

    /// The message.
    pub fn message(&self) -> (message: String)
        ensures
            message@ == self@,
    {
        self.0.clone()
    }
}

} // verus!
