use motoro::fonts::raster::Atlas;
use motoro::textures::loader::TextureLoaderRequest;
use motoro::textures::reader::{
    has_long_chunk, info_from_header, read_texture_from_data, read_texture_info, reader_request,
    texture_from_passes, PngInfo, COPY_LIMIT,
};
use motoro::textures::texture::Texture;
use zune_png::zune_core::bit_depth::BitDepth;
use zune_png::zune_core::bytestream::ZCursor;
use zune_png::zune_core::colorspace::ColorSpace;
use zune_png::zune_core::options::EncoderOptions;
use zune_png::{PngDecoder, PngEncoder};

fn encode(pixels: &[u8], width: usize, height: usize, depth: BitDepth) -> Vec<u8> {
    let options = EncoderOptions::new(width, height, ColorSpace::RGBA, depth);
    let mut file = vec![];
    PngEncoder::new(pixels, options)
        .encode(&mut file)
        .unwrap();
    file
}

fn pixels(width: usize, height: usize) -> Vec<u8> {
    (0..width * height * 4)
        .map(|i| (i * 37 % 256) as u8)
        .collect()
}

#[test]
fn decoded_texture_matches_the_decoder() {
    let known = pixels(5, 3);
    let file = encode(&known, 5, 3, BitDepth::Eight);
    let (info, data) = read_texture_from_data(&file).unwrap();
    assert_eq!(
        info,
        PngInfo {
            width: 5,
            height: 3
        }
    );
    assert_eq!(data, known);
    let mut decoder = PngDecoder::new(ZCursor::new(&file));
    let plain = decoder.decode().unwrap().u8().unwrap();
    let (width, height) = decoder.dimensions().unwrap();
    assert_eq!((info.width, info.height), (width, height));
    assert_eq!(data, plain);
}

#[test]
fn info_comes_from_the_header_alone() {
    let file = encode(&pixels(7, 2), 7, 2, BitDepth::Eight);
    assert_eq!(
        read_texture_info(&file).unwrap(),
        PngInfo {
            width: 7,
            height: 2
        }
    );
}

#[test]
fn garbage_is_an_error_with_the_decoder_message() {
    let error = read_texture_from_data(b"definitely not a png file").unwrap_err();
    assert!(error.message().contains("Bad PNG signature"));
    let error = read_texture_info(b"definitely not a png file").unwrap_err();
    assert!(error.message().contains("Bad PNG signature"));
    assert!(read_texture_from_data(&[]).is_err());
}

#[test]
fn sixteen_bit_channels_are_refused() {
    let wide: Vec<u8> = (0..2 * 2 * 4 * 2).map(|i| i as u8).collect();
    let file = encode(&wide, 2, 2, BitDepth::Sixteen);
    let error = read_texture_from_data(&file).unwrap_err();
    assert_eq!(error.message(), "png has non 8-bit channels");
    assert_eq!(
        read_texture_info(&file).unwrap(),
        PngInfo {
            width: 2,
            height: 2
        }
    );
}

#[test]
fn passes_are_put_together_header_first() {
    let info = PngInfo {
        width: 1,
        height: 1,
    };
    assert_eq!(info_from_header(Ok(Some(info))).unwrap(), info);
    assert_eq!(
        info_from_header(Ok(None)).unwrap_err().message(),
        "png has no header"
    );
    assert_eq!(
        info_from_header(Err("broken".to_string()))
            .unwrap_err()
            .message(),
        "broken"
    );
    assert_eq!(
        texture_from_passes(Ok(Some(info)), Ok(Some(vec![1, 2, 3, 4]))).unwrap(),
        (info, vec![1, 2, 3, 4])
    );
    assert_eq!(
        texture_from_passes(Ok(Some(info)), Ok(None))
            .unwrap_err()
            .message(),
        "png has non 8-bit channels"
    );
    assert_eq!(
        texture_from_passes(Ok(Some(info)), Err("inflate".to_string()))
            .unwrap_err()
            .message(),
        "inflate"
    );
    assert_eq!(
        texture_from_passes(Ok(None), Ok(Some(vec![1])))
            .unwrap_err()
            .message(),
        "png has no header"
    );
    assert_eq!(
        texture_from_passes(Err("header".to_string()), Err("pixels".to_string()))
            .unwrap_err()
            .message(),
        "header"
    );
}

#[test]
fn reader_turns_a_file_into_a_load_request() {
    let known = pixels(4, 4);
    let file = encode(&known, 4, 4, BitDepth::Eight);
    let handle = Texture {
        image: 1,
        memory: 2,
        view: 3,
        size: [0, 0],
    };
    match reader_request("a.png".to_string(), handle, &file).unwrap() {
        TextureLoaderRequest::Load(path, target, width, height, data) => {
            assert_eq!(path, "a.png");
            assert_eq!(target, handle);
            assert_eq!((width, height), (4, 4));
            assert_eq!(data, known);
        }
    }
    assert!(reader_request("a.png".to_string(), handle, b"nope").is_err());
}

#[test]
fn atlas_image_survives_encoding_and_decoding() {
    let atlas = Atlas::create(8, 4, 4, 3);
    let file = atlas.encode().unwrap();
    let (info, data) = read_texture_from_data(&file).unwrap();
    assert_eq!(
        info,
        PngInfo {
            width: 8,
            height: 4
        }
    );
    assert_eq!(&data, atlas.data());
    assert_eq!(data.len(), 8 * 4 * 4);
}

fn chunk(name: &[u8; 4], length: usize) -> Vec<u8> {
    let mut bytes = (length as u32).to_be_bytes().to_vec();
    bytes.extend_from_slice(name);
    bytes.resize(8 + length + 4, 0);
    bytes
}

fn file_with(name: &[u8; 4], length: usize) -> Vec<u8> {
    let whole = encode(&pixels(2, 2), 2, 2, BitDepth::Eight);
    // signature, then the header chunk: length, name, 13 bytes, checksum
    let mut file = whole[..8 + 4 + 4 + 13 + 4].to_vec();
    file.extend_from_slice(&chunk(name, length));
    file.extend_from_slice(&whole[8 + 4 + 4 + 13 + 4..]);
    file
}

#[test]
fn a_chunk_beyond_the_copy_limit_is_an_error() {
    for name in [b"eXIf", b"iCCP", b"zTXt", b"iTXt", b"tEXt"] {
        let file = file_with(name, COPY_LIMIT + 1);
        assert!(has_long_chunk(&file));
        let error = read_texture_info(&file).unwrap_err();
        assert_eq!(error.message(), "png holds a chunk beyond the decoder's limit");
        let error = read_texture_from_data(&file).unwrap_err();
        assert_eq!(error.message(), "png holds a chunk beyond the decoder's limit");
        let handle = Texture {
            image: 1,
            memory: 2,
            view: 3,
            size: [0, 0],
        };
        assert!(reader_request("a.png".to_string(), handle, &file).is_err());
    }
}

#[test]
fn a_chunk_at_the_copy_limit_goes_to_the_decoder() {
    for name in [b"eXIf", b"iCCP", b"zTXt", b"iTXt", b"tEXt"] {
        let file = file_with(name, COPY_LIMIT);
        assert!(!has_long_chunk(&file));
        assert_eq!(
            read_texture_info(&file).unwrap(),
            PngInfo {
                width: 2,
                height: 2
            }
        );
        let (info, data) = read_texture_from_data(&file).unwrap();
        assert_eq!((info.width, info.height), (2, 2));
        assert_eq!(data, pixels(2, 2));
    }
}

#[test]
fn a_long_chunk_is_found_at_any_place() {
    let mut data = vec![0u8; 5];
    data.extend_from_slice(&chunk(b"tEXt", COPY_LIMIT + 1));
    assert!(has_long_chunk(&data));
    // without its last byte the chunk is not all there
    data.pop();
    assert!(!has_long_chunk(&data));
    // other chunks may be as long as they like
    assert!(!has_long_chunk(&chunk(b"IDAT", COPY_LIMIT + 1)));
    assert!(!has_long_chunk(&chunk(b"tEXt", 100)));
    assert!(!has_long_chunk(&[]));
}
