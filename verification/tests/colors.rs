use motoro::colors::{parse_hex_byte, to_rgba8};
use motoro::config::{
    default_fonts_cache, default_resolution, default_title, default_vsync, FontsConfig,
    GraphicsConfig, GraphicsMode,
};
use motoro::dpi::native::setup_process_dpi;
use motoro::system::{metrics_response, monitoring_host};

#[test]
fn colors_by_name() {
    assert_eq!(to_rgba8("white"), [255, 255, 255, 255]);
    assert_eq!(to_rgba8("red"), [255, 0, 0, 255]);
    assert_eq!(to_rgba8("transparent"), [0, 0, 0, 0]);
    assert_eq!(to_rgba8("none"), [0, 0, 0, 0]);
    assert_eq!(to_rgba8("blue"), [255, 255, 255, 255]);
    assert_eq!(to_rgba8(""), [255, 255, 255, 255]);
    assert_eq!(to_rgba8("caf\u{e9}"), [255, 255, 255, 255]);
}

#[test]
fn colors_by_code() {
    assert_eq!(to_rgba8("#000000"), [0, 0, 0, 255]);
    assert_eq!(to_rgba8("#ff8000"), [255, 128, 0, 255]);
    assert_eq!(to_rgba8("#FF8000"), [255, 128, 0, 255]);
    assert_eq!(to_rgba8("#1a2B3c4D"), [0x1a, 0x2b, 0x3c, 0x4d]);
    assert_eq!(to_rgba8("#12345678"), [0x12, 0x34, 0x56, 0x78]);
    assert_eq!(to_rgba8("#1234567"), [255, 255, 255, 255]);
    assert_eq!(to_rgba8("#12345"), [255, 255, 255, 255]);
    assert_eq!(to_rgba8("1234567"), [255, 255, 255, 255]);
    assert_eq!(to_rgba8("#gg00+f"), [0, 0, 15, 255]);
    assert_eq!(to_rgba8("#-1 1f+"), [0, 0, 0, 255]);
    assert_eq!(to_rgba8("#0a0b0c"), [10, 11, 12, 255]);
    assert_eq!(to_rgba8("#\u{e9}0a0b"), [0, 10, 11, 255]);
    assert_eq!(to_rgba8("#0a\u{e9}\u{e9}0b"), [10, 0, 0, 11]);
    assert_eq!(to_rgba8("#\u{e9}\u{e9}0"), [255, 255, 255, 255]);
}

#[test]
fn config_defaults() {
    assert_eq!(default_title(), "motoro");
    assert!(default_vsync());
    assert_eq!(default_resolution(), [1920, 1080]);
    assert_eq!(default_fonts_cache(), "./assets/cache/fonts");
    let config = GraphicsConfig::default();
    assert_eq!(config.title, "motoro");
    assert_eq!(config.mode, GraphicsMode::Windowed);
    assert_eq!(config.resolution, [1920, 1080]);
    assert_eq!(config.resolution_reference, None);
    assert_eq!(config.position, None);
    assert!(config.vsync);
    assert_eq!(config.fonts.cache, "./assets/cache/fonts");
    assert_eq!(config.fonts.resolution_reference, None);
    assert_eq!(GraphicsMode::default(), GraphicsMode::Windowed);
    let fonts = FontsConfig::default();
    assert_eq!(fonts.cache, "./assets/cache/fonts");
}

#[test]
fn config_builders_change_one_thing() {
    let config = GraphicsConfig::default()
        .resolution([800, 600])
        .resolution_reference([1920, 1080])
        .fonts(|fonts| fonts.cache("./cache").resolution_reference([640, 480]));
    assert_eq!(config.resolution, [800, 600]);
    assert_eq!(config.resolution_reference, Some([1920, 1080]));
    assert_eq!(config.fonts.cache, "./cache");
    assert_eq!(config.fonts.resolution_reference, Some([640, 480]));
    assert_eq!(config.title, "motoro");
    assert_eq!(config.mode, GraphicsMode::Windowed);
    assert!(config.vsync);
    assert_eq!(config.position, None);
    let fonts = FontsConfig::default().resolution_reference([1, 2]);
    assert_eq!(fonts.cache, "./assets/cache/fonts");
    assert_eq!(fonts.resolution_reference, Some([1, 2]));
}

#[test]
fn dpi_setup_returns() {
    setup_process_dpi();
}

#[test]
fn metrics_are_answered_with_their_length() {
    assert_eq!(
        metrics_response("a 1\nb 2\n"),
        "HTTP/1.1 200 OK\r\nContent-Length: 8\r\n\r\na 1\nb 2\n"
    );
    assert_eq!(
        metrics_response(""),
        "HTTP/1.1 200 OK\r\nContent-Length: 0\r\n\r\n"
    );
    assert_eq!(
        metrics_response("\u{e9}\u{e9}\u{e9}\u{e9}\u{e9}\u{e9}"),
        "HTTP/1.1 200 OK\r\nContent-Length: 12\r\n\r\n\u{e9}\u{e9}\u{e9}\u{e9}\u{e9}\u{e9}"
    );
    assert_eq!(monitoring_host("9090"), "0.0.0.0:9090");
}

#[test]
fn hex_bytes_are_read_as_the_standard_parse_reads_them() {
    for high in 0..=255u8 {
        for low in 0..=255u8 {
            let text = [high, low];
            let expected = std::str::from_utf8(&text)
                .ok()
                .and_then(|text| u8::from_str_radix(text, 16).ok());
            if high < 128 && low < 128 {
                assert_eq!(parse_hex_byte(high, low), expected);
            } else {
                assert_eq!(parse_hex_byte(high, low), None);
            }
        }
    }
}
