use embedded_graphics::pixelcolor::RgbColor;
use mousefood::{
    adapt_channels, channel_max_of, convert_rgb888, BinaryColor, ChannelDepth, Color, Error, NativeColor, Rgb555, Rgb565, Rgb666, Rgb888, TermColor,
    TermColorType, TriColor,
};

use Color::{
    Black, Blue, Cyan, DarkGray, Gray, Green, Indexed, LightBlue, LightCyan, LightGreen,
    LightMagenta, LightRed, LightYellow, Magenta, Red, Reset, Rgb, White, Yellow,
};
use TermColorType::{Background, Foreground};

fn rgb565(c: Color, role: TermColorType) -> (u8, u8, u8) {
    let n = Rgb565::from_term(TermColor(c, role));
    (n.r, n.g, n.b)
}

fn rgb888(c: Color, role: TermColorType) -> (u8, u8, u8) {
    let n = Rgb888::from_term(TermColor(c, role));
    (n.r, n.g, n.b)
}

fn eg565(r: u8, g: u8, b: u8) -> (u8, u8, u8) {
    let c = embedded_graphics::pixelcolor::Rgb565::from(embedded_graphics::pixelcolor::Rgb888::new(
        r, g, b,
    ));
    (c.r(), c.g(), c.b())
}

const ALL_ROLES: [TermColorType; 2] = [Foreground, Background];

#[test]
fn into_rgb888() {
    assert_eq!(rgb888(Reset, Foreground), (255, 255, 255));
    assert_eq!(rgb888(Reset, Background), (0, 0, 0));
    for role in ALL_ROLES {
        assert_eq!(rgb888(White, role), (255, 255, 255));
        assert_eq!(rgb888(Black, role), (0, 0, 0));
        assert_eq!(rgb888(Red, role), (255, 0, 0));
        assert_eq!(rgb888(Green, role), (0, 255, 0));
        assert_eq!(rgb888(Yellow, role), (255, 255, 0));
        assert_eq!(rgb888(Blue, role), (0, 0, 255));
        assert_eq!(rgb888(Magenta, role), (255, 0, 255));
        assert_eq!(rgb888(Cyan, role), (0, 255, 255));
        assert_eq!(rgb888(LightRed, role), (255, 127, 127));
        assert_eq!(rgb888(LightGreen, role), (127, 255, 127));
        assert_eq!(rgb888(LightYellow, role), (255, 255, 127));
        assert_eq!(rgb888(LightBlue, role), (127, 127, 255));
        assert_eq!(rgb888(LightMagenta, role), (255, 127, 255));
        assert_eq!(rgb888(LightCyan, role), (127, 255, 255));
        assert_eq!(rgb888(Gray, role), (127, 127, 127));
        assert_eq!(rgb888(DarkGray, role), (170, 170, 170));
        assert_eq!(rgb888(Rgb(50, 100, 200), role), (50, 100, 200));
        assert_eq!(rgb888(Rgb(123, 23, 3), role), (123, 23, 3));
    }
}

#[test]
fn into_rgb565() {
    assert_eq!(rgb565(Reset, Foreground), (31, 63, 31));
    assert_eq!(rgb565(Reset, Background), (0, 0, 0));
    for role in ALL_ROLES {
        assert_eq!(rgb565(White, role), (31, 63, 31));
        assert_eq!(rgb565(Black, role), (0, 0, 0));
        assert_eq!(rgb565(Red, role), (31, 0, 0));
        assert_eq!(rgb565(Yellow, role), (31, 63, 0));
        assert_eq!(rgb565(Magenta, role), (31, 0, 31));
        assert_eq!(rgb565(Cyan, role), (0, 63, 31));
        assert_eq!(rgb565(LightRed, role), eg565(255, 127, 127));
        assert_eq!(rgb565(LightRed, role), (31, 31, 15));
        assert_eq!(rgb565(LightGreen, role), eg565(127, 255, 127));
        assert_eq!(rgb565(LightYellow, role), eg565(255, 255, 127));
        assert_eq!(rgb565(LightBlue, role), eg565(127, 127, 255));
        assert_eq!(rgb565(LightMagenta, role), eg565(255, 127, 255));
        assert_eq!(rgb565(LightCyan, role), eg565(127, 255, 255));
        assert_eq!(rgb565(Gray, role), eg565(127, 127, 127));
        assert_eq!(rgb565(DarkGray, role), (21, 42, 21));
        assert_eq!(rgb565(Rgb(50, 100, 200), role), (6, 25, 24));
        assert_eq!(rgb565(Rgb(123, 23, 3), role), eg565(123, 23, 3));
    }
}

#[test]
fn into_rgb555_and_rgb666() {
    let c = Rgb555::from_term(TermColor(Rgb(50, 100, 200), Foreground));
    assert_eq!((c.r, c.g, c.b), (6, 12, 24));
    let c = Rgb666::from_term(TermColor(Rgb(50, 100, 200), Foreground));
    assert_eq!((c.r, c.g, c.b), (12, 25, 49));
    let c = Rgb666::from_term(TermColor(Reset, Foreground));
    assert_eq!((c.r, c.g, c.b), (63, 63, 63));
}

#[test]
fn into_binary_color() {
    assert_eq!(BinaryColor::from_term(TermColor(Black, Foreground)), BinaryColor::Off);
    assert_eq!(BinaryColor::from_term(TermColor(Black, Background)), BinaryColor::Off);
    assert_eq!(BinaryColor::from_term(TermColor(White, Foreground)), BinaryColor::On);
    assert_eq!(BinaryColor::from_term(TermColor(White, Background)), BinaryColor::On);
    assert_eq!(BinaryColor::from_term(TermColor(Red, Foreground)), BinaryColor::Off);
    assert_eq!(BinaryColor::from_term(TermColor(Reset, Background)), BinaryColor::On);
}

#[test]
fn into_tricolor() {
    for role in ALL_ROLES {
        assert_eq!(TriColor::from_term(TermColor(Black, role)), TriColor::Black);
        assert_eq!(TriColor::from_term(TermColor(White, role)), TriColor::White);
        assert_eq!(TriColor::from_term(TermColor(Red, role)), TriColor::Red);
    }
    assert_eq!(TriColor::from_term(TermColor(Blue, Foreground)), TriColor::Black);
    assert_eq!(TriColor::from_term(TermColor(Blue, Background)), TriColor::White);
}

#[test]
fn adapt_refuses_indexed_colors() {
    let r: Result<Rgb565, Error> = mousefood::adapt(TermColor(Indexed(3), Foreground));
    assert_eq!(r, Err(Error::UnsupportedColor));
    let r: Result<BinaryColor, Error> = mousefood::adapt(TermColor(Indexed(0), Background));
    assert_eq!(r, Err(Error::UnsupportedColor));
    let r: Result<Rgb565, Error> = mousefood::adapt(TermColor(Cyan, Background));
    assert_eq!(r, Ok(Rgb565 { r: 0, g: 63, b: 31 }));
}

#[test]
fn adapt_is_deterministic() {
    for c in [Reset, LightCyan, DarkGray, Rgb(1, 2, 3), Rgb(250, 128, 7)] {
        for role in ALL_ROLES {
            assert_eq!(rgb565(c, role), rgb565(c, role));
            assert_eq!(
                Rgb666::from_term(TermColor(c, role)),
                Rgb666::from_term(TermColor(c, role))
            );
        }
    }
}

#[test]
fn reset_is_white_on_black() {
    assert_eq!(rgb565(Reset, Foreground), rgb565(White, Foreground));
    assert_eq!(rgb565(Reset, Background), rgb565(Black, Background));
    assert_eq!(rgb888(Reset, Foreground), rgb888(White, Foreground));
    assert_eq!(rgb888(Reset, Background), rgb888(Black, Background));
    assert_eq!(
        Rgb555::from_term(TermColor(Reset, Foreground)),
        Rgb555::from_term(TermColor(White, Foreground))
    );
}

#[test]
fn rgb_quantization_is_monotonic() {
    let mut last = (0u8, 0u8, 0u8);
    for v in 0..=255u8 {
        let c = rgb565(Rgb(v, v, v), Foreground);
        assert!(c.0 >= last.0 && c.1 >= last.1 && c.2 >= last.2);
        last = c;
    }
    assert!(rgb565(Rgb(10, 40, 40), Foreground).0 <= rgb565(Rgb(200, 40, 40), Foreground).0);
}

#[test]
fn channel_conversion_by_depth() {
    assert_eq!(convert_rgb888(ChannelDepth::Bits565, 255, 255, 255), (31, 63, 31));
    assert_eq!(convert_rgb888(ChannelDepth::Bits555, 127, 170, 0), (15, 21, 0));
    assert_eq!(convert_rgb888(ChannelDepth::Bits666, 200, 100, 50), (49, 25, 12));
    assert_eq!(convert_rgb888(ChannelDepth::Bits888, 200, 100, 50), (200, 100, 50));
    assert_eq!(channel_max_of(ChannelDepth::Bits565), (31, 63, 31));
    assert_eq!(channel_max_of(ChannelDepth::Bits666), (63, 63, 63));
    assert_eq!(adapt_channels(TermColor(LightBlue, Background), ChannelDepth::Bits565), (15, 31, 31));
    assert_eq!(adapt_channels(TermColor(Green, Foreground), ChannelDepth::Bits555), (0, 31, 0));
}
