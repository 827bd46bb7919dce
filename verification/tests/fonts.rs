use motoro::fonts::font::{Char, FontError, MISSING_CHAR};
use motoro::fonts::loader::{ascii, cyrillic, style_rank, FontIndex, FontLoader};
use motoro::fonts::raster::{
    file_from_encoding, round_up_pow_2, texture_path, Atlas, Glyph, Placement, MAX_EXTENT,
};

fn glyph(ch: char, width: usize, height: usize, ymin: i32) -> Glyph {
    Glyph {
        ch,
        width,
        height,
        ymin,
        bitmap: (0..width * height).map(|i| (i % 251 + 1) as u8).collect(),
    }
}

fn overlap(a: &Char, b: &Char) -> bool {
    a.x < b.x + b.width && b.x < a.x + a.width && a.y < b.y + b.height && b.y < a.y + a.height
}

fn pixel(atlas: &Atlas, x: usize, y: usize) -> [u8; 4] {
    let at = (y * atlas.width() + x) * 4;
    let data = atlas.data();
    [data[at], data[at + 1], data[at + 2], data[at + 3]]
}

#[test]
fn round_up_pow_2_gives_the_next_power_of_two() {
    let expected = [
        (0, 1),
        (1, 1),
        (2, 2),
        (3, 4),
        (4, 4),
        (5, 8),
        (8, 8),
        (9, 16),
        (16, 16),
        (17, 32),
        (19, 32),
        (1000, 1024),
        (1024, 1024),
        (1025, 2048),
        (65535, 65536),
        (65537, 131072),
        (0x7FFF_FFFF, 0x8000_0000),
        (0x8000_0000, 0x8000_0000),
    ];
    for (value, rounded) in expected {
        assert_eq!(round_up_pow_2(value), rounded);
    }
    assert_eq!(MAX_EXTENT, 0x8000_0000);
}

#[test]
fn ascii_is_the_missing_char_and_the_printable_characters() {
    let text = ascii();
    let chars: Vec<char> = text.chars().collect();
    assert_eq!(chars.len(), 96);
    assert_eq!(chars[0], MISSING_CHAR);
    assert_eq!(chars[0], '\u{25A1}');
    assert_eq!(chars[1], ' ');
    assert_eq!(chars[95], '~');
    assert_eq!(
        &text[MISSING_CHAR.len_utf8()..],
        " !\"#$%&'()*+,-./0123456789:;<=>?@ABCDEFGHIJKLMNOPQRSTUVWXYZ[\\]^_`abcdefghijklmnopqrstuvwxyz{|}~"
    );
}

#[test]
fn cyrillic_is_the_missing_char_and_the_block() {
    let chars: Vec<char> = cyrillic().chars().collect();
    assert_eq!(chars.len(), 257);
    assert_eq!(chars[0], MISSING_CHAR);
    assert_eq!(chars[1], '\u{0400}');
    assert_eq!(chars[0x11], '\u{0410}');
    assert_eq!(chars[256], '\u{04FF}');
}

#[test]
fn font_error_keeps_its_message() {
    let error = FontError::new("line metrics unavailable");
    assert_eq!(error.message(), "line metrics unavailable");
    assert_eq!(error.0, "line metrics unavailable");
    assert_eq!(FontIndex::default().0, 0);
}

#[test]
fn texture_path_joins_the_key_with_hyphens() {
    assert_eq!(
        texture_path("./assets/cache/fonts", "system-ui", 400, "normal", 16, 1),
        "./assets/cache/fonts/system-ui-400-normal-16-1.png"
    );
    assert_eq!(texture_path("", "", 0, "", 0, 0), "/-0--0-0.png");
}

#[test]
fn a_new_atlas_is_transparent() {
    let atlas = Atlas::create(16, 8, 19, 15);
    assert_eq!(atlas.width(), 16);
    assert_eq!(atlas.height(), 8);
    assert_eq!(atlas.step_y(), 32);
    assert_eq!(atlas.data(), &vec![0u8; 16 * 8 * 4]);
    assert!(atlas.charset().is_empty());
    assert_eq!(atlas.get('a'), None);
    assert_eq!(atlas.get_or_missing('a').width, 0);
}

#[test]
fn a_glyph_is_drawn_into_its_cell() {
    let mut atlas = Atlas::create(64, 64, 19, 15);
    let placed = atlas.place(&glyph('a', 3, 2, 1));
    let cell = Char {
        ch: 'a',
        x: 0,
        y: 0,
        width: 4,
        height: 32,
        glyph_offset: 12,
        glyph_width: 3,
    };
    assert_eq!(placed, Placement::Placed(cell));
    assert_eq!(atlas.get('a'), Some(cell));
    assert_eq!(atlas.charset().get(&('a' as u32)), Some(&cell));
    assert_eq!(atlas.len(), 1);
    for row in 0..2 {
        for column in 0..3 {
            assert_eq!(
                pixel(&atlas, column, 12 + row),
                [255, 255, 255, (row * 3 + column + 1) as u8]
            );
        }
    }
    let painted = atlas.data().iter().filter(|byte| **byte != 0).count();
    assert_eq!(painted, 3 * 2 * 4);
    assert_eq!(pixel(&atlas, 3, 12), [0, 0, 0, 0]);
    assert_eq!(pixel(&atlas, 0, 11), [0, 0, 0, 0]);
    assert_eq!(pixel(&atlas, 0, 14), [0, 0, 0, 0]);
    let next = atlas.place(&glyph('b', 5, 1, 0));
    match next {
        Placement::Placed(cell) => {
            assert_eq!((cell.x, cell.y, cell.width, cell.height), (4, 0, 8, 32));
            assert_eq!(cell.glyph_offset, 14);
            assert_eq!(cell.glyph_width, 5);
        }
        other => panic!("{other:?}"),
    }
    assert_eq!(pixel(&atlas, 4, 14), [255, 255, 255, 1]);
    assert_eq!(pixel(&atlas, 8, 14), [255, 255, 255, 5]);
}

#[test]
fn a_full_row_wraps_to_the_next() {
    let mut atlas = Atlas::create(16, 64, 8, 8);
    let cells: Vec<(usize, usize)> = (0..5)
        .map(|i| match atlas.place(&glyph((b'a' + i) as char, 4, 4, 0)) {
            Placement::Placed(cell) => (cell.x, cell.y),
            other => panic!("{other:?}"),
        })
        .collect();
    assert_eq!(cells, vec![(0, 0), (4, 0), (8, 0), (0, 8), (4, 8)]);
}

#[test]
fn unfit_glyphs_are_left_out() {
    let mut atlas = Atlas::create(64, 64, 8, 6);
    assert_eq!(atlas.place(&glyph('a', 2, 9, 0)), Placement::TooTall);
    assert_eq!(atlas.place(&glyph('b', 2, 8, -1)), Placement::AboveBaseline);
    assert_eq!(atlas.place(&glyph('c', 2, 4, 3)), Placement::AboveBaseline);
    assert!(atlas.charset().is_empty());
    assert_eq!(atlas.data(), &vec![0u8; 64 * 64 * 4]);
    let mut broken = glyph('d', 2, 2, 0);
    broken.bitmap.pop();
    assert_eq!(atlas.place(&broken), Placement::Malformed);
    let mut broken = glyph('d', 0, 2, 0);
    broken.bitmap.push(1);
    assert_eq!(atlas.place(&broken), Placement::Malformed);
    assert!(matches!(
        atlas.place(&glyph('e', 2, 4, 2)),
        Placement::Placed(_)
    ));
    assert!(matches!(
        atlas.place(&glyph(' ', 0, 0, 0)),
        Placement::Placed(_)
    ));
    assert_eq!(atlas.charset().len(), 2);
}

#[test]
fn a_glyph_outside_the_image_changes_nothing() {
    let mut atlas = Atlas::create(8, 8, 8, 8);
    assert!(matches!(
        atlas.place(&glyph('a', 4, 8, 0)),
        Placement::Placed(_)
    ));
    let before = atlas.data().clone();
    assert_eq!(atlas.place(&glyph('b', 4, 8, 0)), Placement::OutOfAtlas);
    assert_eq!(atlas.data(), &before);
    assert_eq!(atlas.charset().len(), 1);
    let mut wide = Atlas::create(4, 64, 8, 8);
    assert_eq!(wide.place(&glyph('w', 5, 1, 0)), Placement::OutOfAtlas);
}

#[test]
fn a_repeated_character_keeps_one_cell() {
    let mut atlas = Atlas::create(64, 64, 8, 8);
    atlas.place(&glyph('a', 4, 4, 0));
    atlas.place(&glyph('b', 4, 4, 0));
    let again = atlas.place(&glyph('a', 4, 4, 0));
    assert_eq!(atlas.len(), 2);
    assert_eq!(atlas.charset().get(&('a' as u32)).copied(), atlas.get('a'));
    match again {
        Placement::Placed(cell) => {
            assert_eq!(cell.x, 8);
            assert_eq!(atlas.get('a'), Some(cell));
        }
        other => panic!("{other:?}"),
    }
}

#[test]
fn the_ascii_alphabet_gets_one_cell_per_character_without_overlap() {
    let alphabet: Vec<char> = ascii().chars().collect();
    let line_height = 19;
    let baseline = 19 - 4;
    let glyphs: Vec<Glyph> = alphabet
        .iter()
        .enumerate()
        .map(|(i, ch)| glyph(*ch, 1 + i % 11, 3 + i % 9, -((i % 4) as i32)))
        .collect();
    let mut atlas = Atlas::create(512, 512, line_height, baseline);
    let placements = atlas.bake(&glyphs);
    assert_eq!(placements.len(), 96);
    for (placement, glyph) in placements.iter().zip(&glyphs) {
        match placement {
            Placement::Placed(cell) => {
                assert_eq!(cell.ch, glyph.ch);
                assert_eq!(atlas.get(glyph.ch), Some(*cell));
                assert!(cell.width >= glyph.width);
                assert!(cell.width.is_power_of_two());
                assert_eq!(cell.height, 32);
                assert!(cell.x + cell.width <= 512 && cell.y + cell.height <= 512);
            }
            other => panic!("{other:?}"),
        }
    }
    assert_eq!(atlas.len(), 96);
    let charset: Vec<Char> = atlas.charset().values().copied().collect();
    assert_eq!(charset.len(), 96);
    for ch in &alphabet {
        assert_eq!(charset.iter().filter(|cell| cell.ch == *ch).count(), 1);
        assert_eq!(atlas.charset()[&(*ch as u32)].ch, *ch);
    }
    for (i, a) in charset.iter().enumerate() {
        for b in &charset[i + 1..] {
            assert!(!overlap(a, b));
        }
    }
    assert_eq!(atlas.get_or_missing('\u{0416}').ch, MISSING_CHAR);
    assert_eq!(atlas.get_or_missing('x').ch, 'x');
}

#[test]
fn styles_are_ranked() {
    assert_eq!(style_rank("normal"), 0);
    assert_eq!(style_rank("italic"), 1);
    assert_eq!(style_rank("oblique"), 2);
    assert_eq!(style_rank("bold"), 9);
    assert_eq!(style_rank(""), 9);
}

#[test]
fn the_nearest_font_of_the_family_matches() {
    let mut loader = FontLoader::new();
    assert_eq!(loader.match_font("system-ui", 400, "normal", 16000).0, 0);
    assert_eq!(loader.load_font("system-ui", 400, "normal", 16000).0, 0);
    assert_eq!(loader.load_font("serif", 400, "normal", 16000).0, 1);
    assert_eq!(loader.load_font("system-ui", 700, "normal", 16000).0, 2);
    assert_eq!(loader.load_font("system-ui", 400, "italic", 16000).0, 3);
    assert_eq!(loader.load_font("system-ui", 400, "normal", 24000).0, 4);
    assert_eq!(loader.load_font("system-ui", 400, "normal", 16000).0, 5);
    assert_eq!(loader.len(), 6);
    assert_eq!(loader.match_font("system-ui", 400, "normal", 16000).0, 0);
    assert_eq!(loader.match_font("system-ui", 600, "normal", 16000).0, 2);
    assert_eq!(loader.match_font("system-ui", 500, "normal", 16000).0, 0);
    assert_eq!(loader.match_font("system-ui", 400, "italic", 16000).0, 3);
    assert_eq!(loader.match_font("system-ui", 400, "normal", 23000).0, 4);
    assert_eq!(loader.match_font("system-ui", 700, "normal", 16001).0, 2);
    assert_eq!(loader.match_font("serif", 900, "oblique", 1000).0, 1);
    assert_eq!(loader.match_font("mono", 400, "normal", 16000).0, 0);
}

#[test]
fn an_image_that_cannot_be_encoded_is_an_error() {
    assert_eq!(file_from_encoding(Some(vec![1, 2, 3])).unwrap(), vec![1, 2, 3]);
    assert_eq!(
        file_from_encoding(None).unwrap_err().message(),
        "atlas image could not be encoded"
    );
    let file = Atlas::create(2, 2, 2, 2).encode().unwrap();
    assert_eq!(&file[..8], b"\x89PNG\r\n\x1a\n");
}

#[test]
fn an_atlas_without_pixels_has_no_file() {
    for (width, height) in [(0, 0), (7, 0), (0, 7)] {
        let error = Atlas::create(width, height, 0, 0).encode().unwrap_err();
        assert_eq!(error.message(), "atlas image could not be encoded");
    }
}

#[test]
fn a_cell_outside_the_image_is_not_recorded() {
    let mut atlas = Atlas::create(8, 8, 8, 8);
    for (ch, width) in [('a', 4), ('b', 2), ('c', 1)] {
        assert!(matches!(
            atlas.place(&glyph(ch, width, 8, 0)),
            Placement::Placed(_)
        ));
    }
    assert_eq!(atlas.place(&glyph(' ', 0, 0, 0)), Placement::OutOfAtlas);
    assert_eq!(atlas.place(&glyph('d', 1, 1, 0)), Placement::OutOfAtlas);
    assert_eq!(atlas.place(&glyph('e', 8, 8, 0)), Placement::OutOfAtlas);
    assert_eq!(atlas.len(), 3);
    assert_eq!(atlas.get(' '), None);
    let mut low = Atlas::create(64, 4, 8, 8);
    assert_eq!(low.place(&glyph(' ', 0, 0, 0)), Placement::OutOfAtlas);
    assert_eq!(low.place(&glyph('c', 1, 1, 0)), Placement::OutOfAtlas);
    assert!(low.charset().is_empty());
    let mut narrow = Atlas::create(6, 64, 8, 8);
    assert_eq!(narrow.place(&glyph('f', 5, 1, 0)), Placement::OutOfAtlas);
    assert!(matches!(
        narrow.place(&glyph('g', 4, 1, 0)),
        Placement::Placed(_)
    ));
    for cell in narrow.charset().values() {
        assert!(cell.x + cell.width <= 6 && cell.y + cell.height <= 64);
    }
}

#[test]
fn sizes_and_scales_in_thousandths_keep_their_files_apart() {
    let plain = texture_path("cache", "system-ui", 400, "normal", 16_000, 1_000);
    let sharp = texture_path("cache", "system-ui", 400, "normal", 16_000, 1_500);
    assert_eq!(plain, "cache/system-ui-400-normal-16000-1000.png");
    assert_eq!(sharp, "cache/system-ui-400-normal-16000-1500.png");
    assert_ne!(plain, sharp);
}

#[test]
fn a_well_formed_atlas_with_pixels_has_a_file() {
    for (width, height) in [(1, 1), (3, 5), (16, 2)] {
        let file = Atlas::create(width, height, 2, 1).encode().unwrap();
        assert_eq!(&file[..8], &[0x89, b'P', b'N', b'G', 0x0d, 0x0a, 0x1a, 0x0a]);
    }
}
