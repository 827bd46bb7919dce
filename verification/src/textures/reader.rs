//! Decoding texture files: PNG bytes to size and 8-bit pixels.

use crate::textures::loader::TextureLoaderRequest;
use crate::textures::texture::{Texture, TextureError};
use vstd::prelude::*;
use zune_png::zune_core::bytestream::ZCursor;
use zune_png::PngDecoder;

verus! {

/// Width and height of an image, in pixels, as its header states them.
#[derive(Clone, Copy, Debug, PartialEq, Eq, Structural)]
pub struct PngInfo {
    pub width: usize,
    pub height: usize,
}

/// The most bytes that the decoder copies out of a chunk in one piece.
pub const COPY_LIMIT: usize = 20_971_520;

/// The number that the four bytes from `at` on spell, the first byte
/// counting most: the length in a chunk's header.
pub open spec fn length_at(data: Seq<u8>, at: int) -> int {
    data[at] as int * 0x100_0000 + data[at + 1] as int * 0x1_0000 + data[at + 2] as int * 0x100 + data[at
        + 3] as int
}

/// True for the four letters of a chunk whose contents the decoder copies
/// out in one piece: `eXIf`, `iCCP`, `zTXt`, `iTXt` and `tEXt`.
pub open spec fn is_copied(a: u8, b: u8, c: u8, d: u8) -> bool {
    ||| (a == 0x65 && b == 0x58 && c == 0x49 && d == 0x66)
    ||| (a == 0x69 && b == 0x43 && c == 0x43 && d == 0x50)
    ||| (a == 0x7a && b == 0x54 && c == 0x58 && d == 0x74)
    ||| (a == 0x69 && b == 0x54 && c == 0x58 && d == 0x74)
    ||| (a == 0x74 && b == 0x45 && c == 0x58 && d == 0x74)
}

/// True where the eight bytes from `at` on read as the header of such a
/// chunk, longer than the limit, with all its contents and its checksum
/// inside `data`.
pub open spec fn long_chunk_at(data: Seq<u8>, at: int) -> bool {
    &&& 0 <= at
    &&& at + 12 + length_at(data, at) <= data.len()
    &&& length_at(data, at) > COPY_LIMIT
    &&& is_copied(data[at + 4], data[at + 5], data[at + 6], data[at + 7])
}

/// True where some place in `data` reads as the header of such a chunk. The
/// places are not only those that a walk from chunk to chunk reaches: after
/// a malformed chunk the decoder may go on from any place.
pub open spec fn holds_long_chunk(data: Seq<u8>) -> bool {
    exists|at: int| long_chunk_at(data, at)
}

/// Tells whether the eight bytes from `at` on read as the header of a long
/// chunk that the decoder copies out.
fn is_long_chunk(data: &[u8], at: usize) -> (found: bool)
    requires
        at + 12 <= data@.len(),
    ensures
        found == long_chunk_at(data@, at as int),
{
    let length: u64 = (data[at] as u64) * 0x100_0000 + (data[at + 1] as u64) * 0x1_0000 + (data[at
        + 2] as u64) * 0x100 + (data[at + 3] as u64);
    let a: u8 = data[at + 4];
    let b: u8 = data[at + 5];
    let c: u8 = data[at + 6];
    let d: u8 = data[at + 7];
    let copied: bool = (a == 0x65 && b == 0x58 && c == 0x49 && d == 0x66) || (a == 0x69 && b == 0x43 && c
        == 0x43 && d == 0x50) || (a == 0x7a && b == 0x54 && c == 0x58 && d == 0x74) || (a == 0x69 && b
        == 0x54 && c == 0x58 && d == 0x74) || (a == 0x74 && b == 0x45 && c == 0x58 && d == 0x74);
    copied && length > COPY_LIMIT as u64 && length <= (data.len() - at - 12) as u64
}

/// Tells whether `data` holds, at any place, the header of a chunk that
/// the decoder would copy out in one piece beyond its limit.
pub fn has_long_chunk(data: &[u8]) -> (found: bool)
    ensures
        found == holds_long_chunk(data@),
{
    let len: usize = data.len();
    if len <= COPY_LIMIT + 12 {
        assert(!holds_long_chunk(data@));
        return false;
    }
    let end: usize = len - COPY_LIMIT - 12;
    let mut at: usize = 0;
    while at < end
        invariant
            at <= end,
            end == len - COPY_LIMIT - 12,
            len == data@.len(),
            forall|k: int| 0 <= k < at ==> !long_chunk_at(data@, k),
        decreases end - at,
    {
        if is_long_chunk(data, at) {
            return true;
        }
        at += 1;
    }
    assert(!holds_long_chunk(data@));
    false
}

/// What decoding the headers of `data` as a PNG gives: the size that the
/// header states, nothing where the decoder holds no header after a
/// successful pass, or the decoder's error as text.
pub uninterp spec fn png_header(data: Seq<u8>) -> Result<Option<PngInfo>, Seq<char>>;

/// What decoding `data` as a PNG gives after its headers: the pixels where
/// the image has 8-bit channels, nothing where it has wider ones, or the
/// decoder's error as text.
pub uninterp spec fn png_pixels(data: Seq<u8>) -> Result<Option<Seq<u8>>, Seq<char>>;

/// The outcome of a header pass with its strings taken by their view.
pub open spec fn header_view(outcome: Result<Option<PngInfo>, String>) -> Result<
    Option<PngInfo>,
    Seq<char>,
> {
    match outcome {
        Ok(info) => Ok(info),
        Err(message) => Err(message@),
    }
}

/// The outcome of a pixel pass with its buffers and strings taken by their
/// view.
pub open spec fn pixels_view(outcome: Result<Option<Vec<u8>>, String>) -> Result<
    Option<Seq<u8>>,
    Seq<char>,
> {
    match outcome {
        Ok(Some(pixels)) => Ok(Some(pixels@)),
        Ok(None) => Ok(None),
        Err(message) => Err(message@),
    }
}

/// Runs `zune_png::PngDecoder::decode_headers` on a new decoder over `data`
/// and reads `PngDecoder::info`. The decoder stops the program where a chunk
/// that it copies out in one piece is longer than the limit, so data with
/// the header of such a chunk at any place is not handed to it. Claims only
/// that the outcome is a function of the bytes: the same bytes always give
/// the same size or the same error.
#[verifier::external_body]
fn decode_png_header(data: &[u8]) -> (outcome: Result<Option<PngInfo>, String>)
    requires
        !holds_long_chunk(data@),
    ensures
        header_view(outcome) == png_header(data@),
{
    let mut decoder = PngDecoder::new(ZCursor::new(data));
    match decoder.decode_headers() {
        Ok(()) => Ok(decoder.info().map(|info| PngInfo { width: info.width, height: info.height })),
        Err(error) => Err(error.to_string()),
    }
}

/// Runs `zune_png::PngDecoder::decode_headers` and then `PngDecoder::decode`
/// on a new decoder over `data`, and takes the bytes out of an 8-bit result
/// with `DecodingResult::u8`. Data with the header of a long copied chunk at
/// any place is not handed to it, as for the headers alone. Claims only that
/// the outcome is a function of the bytes.
#[verifier::external_body]
fn decode_png_pixels(data: &[u8]) -> (outcome: Result<Option<Vec<u8>>, String>)
    requires
        !holds_long_chunk(data@),
    ensures
        pixels_view(outcome) == png_pixels(data@),
{
    let mut decoder = PngDecoder::new(ZCursor::new(data));
    if let Err(error) = decoder.decode_headers() {
        return Err(error.to_string());
    }
    match decoder.decode() {
        Ok(decoded) => Ok(decoded.u8()),
        Err(error) => Err(error.to_string()),
    }
}

/// The outcome of the header pass over `data`: data that holds a long copied
/// chunk is refused before the decoder sees it.
pub open spec fn header_pass(data: Seq<u8>) -> Result<Option<PngInfo>, Seq<char>> {
    if holds_long_chunk(data) {
        Err("png holds a chunk beyond the decoder's limit"@)
    } else {
        png_header(data)
    }
}

/// The outcome of the pixel pass over `data`: data that holds a long copied
/// chunk is refused before the decoder sees it.
pub open spec fn pixel_pass(data: Seq<u8>) -> Result<Option<Seq<u8>>, Seq<char>> {
    if holds_long_chunk(data) {
        Err("png holds a chunk beyond the decoder's limit"@)
    } else {
        png_pixels(data)
    }
}

/// What reading the size of a texture file answers, given the outcome of the
/// header pass over its bytes.
pub open spec fn info_of(header: Result<Option<PngInfo>, Seq<char>>) -> Result<PngInfo, Seq<char>> {
    match header {
        Ok(Some(info)) => Ok(info),
        Ok(None) => Err("png has no header"@),
        Err(message) => Err(message),
    }
}

/// What reading a texture file answers, given the outcomes of the header
/// pass and of the pixel pass over its bytes. The header is asked first, so
/// its error wins.
pub open spec fn texture_of(
    header: Result<Option<PngInfo>, Seq<char>>,
    pixels: Result<Option<Seq<u8>>, Seq<char>>,
) -> Result<(PngInfo, Seq<u8>), Seq<char>> {
    match info_of(header) {
        Err(message) => Err(message),
        Ok(info) => match pixels {
            Ok(Some(bytes)) => Ok((info, bytes)),
            Ok(None) => Err("png has non 8-bit channels"@),
            Err(message) => Err(message),
        },
    }
}

/// A size or an error with its strings taken by their view.
pub open spec fn info_result_view(result: Result<PngInfo, TextureError>) -> Result<PngInfo, Seq<char>> {
    match result {
        Ok(info) => Ok(info),
        Err(error) => Err(error@),
    }
}

/// A decoded texture or an error with buffers and strings taken by their
/// view.
pub open spec fn texture_result_view(result: Result<(PngInfo, Vec<u8>), TextureError>) -> Result<
    (PngInfo, Seq<u8>),
    Seq<char>,
> {
    match result {
        Ok((info, bytes)) => Ok((info, bytes@)),
        Err(error) => Err(error@),
    }
}

/// Turns the outcome of a header pass into the size of the image, or into
/// the error that a texture reader reports.
pub fn info_from_header(header: Result<Option<PngInfo>, String>) -> (result: Result<
    PngInfo,
    TextureError,
>)
    ensures
        info_result_view(result) == info_of(header_view(header)),
{
    match header {
        Ok(Some(info)) => Ok(info),
        Ok(None) => Err(TextureError::new("png has no header")),
        Err(message) => Err(TextureError(message)),
    }
}

/// Puts the outcomes of the header pass and of the pixel pass together: the
/// size and the 8-bit pixels, or the first error on the way.
pub fn texture_from_passes(
    header: Result<Option<PngInfo>, String>,
    pixels: Result<Option<Vec<u8>>, String>,
) -> (result: Result<(PngInfo, Vec<u8>), TextureError>)
    ensures
        texture_result_view(result) == texture_of(header_view(header), pixels_view(pixels)),
{
    match info_from_header(header) {
        Err(error) => Err(error),
        Ok(info) => match pixels {
            Ok(Some(bytes)) => Ok((info, bytes)),
            Ok(None) => Err(TextureError::new("png has non 8-bit channels")),
            Err(message) => Err(TextureError(message)),
        },
    }
}

/// The size of the PNG image in `data`, from its headers alone.
pub fn read_texture_info(data: &[u8]) -> (result: Result<PngInfo, TextureError>)
    ensures
        info_result_view(result) == info_of(header_pass(data@)),
        holds_long_chunk(data@) ==> result is Err,
{
    if has_long_chunk(data) {
        return Err(TextureError::new("png holds a chunk beyond the decoder's limit"));
    }
    info_from_header(decode_png_header(data))
}

/// The size and the 8-bit pixels of the PNG image in `data`.
pub fn read_texture_from_data(data: &[u8]) -> (result: Result<(PngInfo, Vec<u8>), TextureError>)
    ensures
        texture_result_view(result) == texture_of(header_pass(data@), pixel_pass(data@)),
        holds_long_chunk(data@) ==> result is Err,
{
    if has_long_chunk(data) {
        return Err(TextureError::new("png holds a chunk beyond the decoder's limit"));
    }
    let header = decode_png_header(data);
    match header {
        Err(message) => Err(TextureError(message)),
        Ok(None) => Err(TextureError::new("png has no header")),
        Ok(Some(info)) => texture_from_passes(Ok(Some(info)), decode_png_pixels(data)),
    }
}

/// What a reader hands to the loader for the file of `path`, once the
/// file's bytes are there: the request to load the decoded pixels into
/// `handle`, or the error that ends this load.
pub fn reader_request(path: String, handle: Texture, data: &[u8]) -> (request: Result<
    TextureLoaderRequest,
    TextureError,
>)
    ensures
        match texture_of(header_pass(data@), pixel_pass(data@)) {
            Ok((info, bytes)) => request matches Ok(TextureLoaderRequest::Load(p, h, width, height, pixels))
                && p@ == path@ && h == handle && width == info.width && height == info.height
                && pixels@ == bytes,
            Err(message) => request matches Err(error) && error@ == message,
        },
{
    match read_texture_from_data(data) {
        Ok((info, pixels)) => Ok(TextureLoaderRequest::Load(path, handle, info.width, info.height, pixels)),
        Err(error) => Err(error),
    }
}

} // verus!
