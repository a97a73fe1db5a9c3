use vstd::prelude::*;
use vstd::arithmetic::div_mod::lemma_div_is_ordered;
use vstd::arithmetic::mul::lemma_mul_inequality;
use embedded_graphics::pixelcolor::RgbColor;
use crate::error::Error;

verus! {

/// A terminal color, as the terminal-UI layer hands it out.
#[derive(Debug, Clone, Copy, PartialEq, Eq, Structural)]
pub enum Color {
    Reset,
    Black,
    Red,
    Green,
    Yellow,
    Blue,
    Magenta,
    Cyan,
    Gray,
    DarkGray,
    LightRed,
    LightGreen,
    LightYellow,
    LightBlue,
    LightMagenta,
    LightCyan,
    White,
    Rgb(u8, u8, u8),
    Indexed(u8),
}

/// Whether a color paints glyphs or the cell behind them.
#[derive(Debug, Clone, Copy, PartialEq, Eq, Structural)]
pub enum TermColorType {
    Foreground,
    Background,
}

/// A terminal color together with the role it plays.
#[derive(Debug, Clone, Copy, PartialEq, Eq, Structural)]
pub struct TermColor(pub Color, pub TermColorType);

/// Colors that can be mapped onto a display: all but indexed palette entries.
pub open spec fn is_supported(color: Color) -> bool {
    !(color is Indexed)
}

/// Bits per channel of an RGB display color model.
#[derive(Debug, Clone, Copy, PartialEq, Eq, Structural)]
pub enum ChannelDepth {
    Bits555,
    Bits565,
    Bits666,
    Bits888,
}

/// The largest value of each channel in a color model.
pub open spec fn channel_max(depth: ChannelDepth) -> (int, int, int) {
    match depth {
        ChannelDepth::Bits555 => (31, 31, 31),
        ChannelDepth::Bits565 => (31, 63, 31),
        ChannelDepth::Bits666 => (63, 63, 63),
        ChannelDepth::Bits888 => (255, 255, 255),
    }
}

/// An 8-bit channel value brought to the range `0..=to_max`, in the fixed-point
/// rounding form that embedded-graphics uses for its color conversions.
pub open spec fn rescale_channel(v: int, to_max: int) -> int {
    if to_max == 255 {
        v
    } else {
        (v * ((to_max * 0x100_0000) / 255) + 0x80_0000) / 0x100_0000
    }
}

/// An 8-bit RGB triple converted into a color model.
pub open spec fn rescaled(depth: ChannelDepth, r: int, g: int, b: int) -> (int, int, int) {
    let m = channel_max(depth);
    (rescale_channel(r, m.0), rescale_channel(g, m.1), rescale_channel(b, m.2))
}

/// The channels that an RGB color model gives a terminal color in a role.
///
/// Reset is white as a foreground and black as a background; the eight basic
/// colors are the model's primaries; the light variants and the grays are
/// 8-bit blends converted into the model; `Rgb` is converted as it is.
pub open spec fn adapted_channels(color: Color, role: TermColorType, depth: ChannelDepth) -> (
    int,
    int,
    int,
) {
    let m = channel_max(depth);
    match color {
        Color::Reset => match role {
            TermColorType::Foreground => m,
            TermColorType::Background => (0, 0, 0),
        },
        Color::White => m,
        Color::Black => (0, 0, 0),
        Color::Red => (m.0, 0, 0),
        Color::Green => (0, m.1, 0),
        Color::Yellow => (m.0, m.1, 0),
        Color::Blue => (0, 0, m.2),
        Color::Magenta => (m.0, 0, m.2),
        Color::Cyan => (0, m.1, m.2),
        Color::LightRed => rescaled(depth, 255, 127, 127),
        Color::LightGreen => rescaled(depth, 127, 255, 127),
        Color::LightYellow => rescaled(depth, 255, 255, 127),
        Color::LightBlue => rescaled(depth, 127, 127, 255),
        Color::LightMagenta => rescaled(depth, 255, 127, 255),
        Color::LightCyan => rescaled(depth, 127, 255, 255),
        Color::Gray => rescaled(depth, 127, 127, 127),
        Color::DarkGray => rescaled(depth, 170, 170, 170),
        Color::Rgb(r, g, b) => rescaled(depth, r as int, g as int, b as int),
        Color::Indexed(_) => (0, 0, 0),
    }
}

/// Relies on embedded-graphics' `From<Rgb888> for Rgb555`, which rescales each
/// channel with its fixed-point `convert_channel`.
#[verifier::external_body]
fn rgb555_from_rgb888(r: u8, g: u8, b: u8) -> (c: (u8, u8, u8))
    ensures
        (c.0 as int, c.1 as int, c.2 as int) == rescaled(ChannelDepth::Bits555, r as int, g as int, b as int),
{
    let c = embedded_graphics::pixelcolor::Rgb555::from(
        embedded_graphics::pixelcolor::Rgb888::new(r, g, b),
    );
    (c.r(), c.g(), c.b())
}

/// Relies on embedded-graphics' `From<Rgb888> for Rgb565`, which rescales each
/// channel with its fixed-point `convert_channel`.
#[verifier::external_body]
fn rgb565_from_rgb888(r: u8, g: u8, b: u8) -> (c: (u8, u8, u8))
    ensures
        (c.0 as int, c.1 as int, c.2 as int) == rescaled(ChannelDepth::Bits565, r as int, g as int, b as int),
{
    let c = embedded_graphics::pixelcolor::Rgb565::from(
        embedded_graphics::pixelcolor::Rgb888::new(r, g, b),
    );
    (c.r(), c.g(), c.b())
}

/// Relies on embedded-graphics' `From<Rgb888> for Rgb666`, which rescales each
/// channel with its fixed-point `convert_channel`.
#[verifier::external_body]
fn rgb666_from_rgb888(r: u8, g: u8, b: u8) -> (c: (u8, u8, u8))
    ensures
        (c.0 as int, c.1 as int, c.2 as int) == rescaled(ChannelDepth::Bits666, r as int, g as int, b as int),
{
    let c = embedded_graphics::pixelcolor::Rgb666::from(
        embedded_graphics::pixelcolor::Rgb888::new(r, g, b),
    );
    (c.r(), c.g(), c.b())
}

/// Converts an 8-bit RGB triple into a color model.
pub fn convert_rgb888(depth: ChannelDepth, r: u8, g: u8, b: u8) -> (c: (u8, u8, u8))
    ensures
        (c.0 as int, c.1 as int, c.2 as int) == rescaled(depth, r as int, g as int, b as int),
{
    match depth {
        ChannelDepth::Bits555 => rgb555_from_rgb888(r, g, b),
        ChannelDepth::Bits565 => rgb565_from_rgb888(r, g, b),
        ChannelDepth::Bits666 => rgb666_from_rgb888(r, g, b),
        ChannelDepth::Bits888 => (r, g, b),
    }
}

/// The largest value of each channel in a color model.
pub fn channel_max_of(depth: ChannelDepth) -> (m: (u8, u8, u8))
    ensures
        (m.0 as int, m.1 as int, m.2 as int) == channel_max(depth),
{
    match depth {
        ChannelDepth::Bits555 => (31, 31, 31),
        ChannelDepth::Bits565 => (31, 63, 31),
        ChannelDepth::Bits666 => (63, 63, 63),
        ChannelDepth::Bits888 => (255, 255, 255),
    }
}

/// Maps a terminal color onto the channels of an RGB color model.
pub fn adapt_channels(color: TermColor, depth: ChannelDepth) -> (c: (u8, u8, u8))
    requires
        is_supported(color.0),
    ensures
        (c.0 as int, c.1 as int, c.2 as int) == adapted_channels(color.0, color.1, depth),
{
    let m = channel_max_of(depth);
    match color.0 {
        Color::Reset => match color.1 {
            TermColorType::Foreground => m,
            TermColorType::Background => (0, 0, 0),
        },
        Color::White => m,
        Color::Black => (0, 0, 0),
        Color::Red => (m.0, 0, 0),
        Color::Green => (0, m.1, 0),
        Color::Yellow => (m.0, m.1, 0),
        Color::Blue => (0, 0, m.2),
        Color::Magenta => (m.0, 0, m.2),
        Color::Cyan => (0, m.1, m.2),
        Color::LightRed => convert_rgb888(depth, 255, 127, 127),
        Color::LightGreen => convert_rgb888(depth, 127, 255, 127),
        Color::LightYellow => convert_rgb888(depth, 255, 255, 127),
        Color::LightBlue => convert_rgb888(depth, 127, 127, 255),
        Color::LightMagenta => convert_rgb888(depth, 255, 127, 255),
        Color::LightCyan => convert_rgb888(depth, 127, 255, 255),
        Color::Gray => convert_rgb888(depth, 127, 127, 127),
        Color::DarkGray => convert_rgb888(depth, 170, 170, 170),
        Color::Rgb(r, g, b) => convert_rgb888(depth, r, g, b),
        Color::Indexed(_) => (0, 0, 0),
    }
}


/// A color type of a display that terminal colors can be mapped onto.
pub trait NativeColor: Sized + Copy {
    /// The display color for a supported terminal color in a role.
    spec fn adapted(color: Color, role: TermColorType) -> Self;

    /// Maps a supported terminal color onto this color type.
    fn from_term(color: TermColor) -> (c: Self)
        requires
            is_supported(color.0),
        ensures
            c == Self::adapted(color.0, color.1),
    ;
}

/// Maps a terminal color onto a display color type; indexed colors are refused.
pub fn adapt<C: NativeColor>(color: TermColor) -> (r: Result<C, Error>)
    ensures
        match r {
            Ok(c) => is_supported(color.0) && c == C::adapted(color.0, color.1),
            Err(e) => !is_supported(color.0) && e is UnsupportedColor,
        },
{
    match color.0 {
        Color::Indexed(_) => Err(Error::UnsupportedColor),
        _ => Ok(C::from_term(color)),
    }
}

/// An RGB color with 5 bits of red, green and blue.
#[derive(Debug, Clone, Copy, PartialEq, Eq, Structural)]
pub struct Rgb555 {
    pub r: u8,
    pub g: u8,
    pub b: u8,
}

/// An RGB color with 5 bits of red, 6 of green and 5 of blue.
#[derive(Debug, Clone, Copy, PartialEq, Eq, Structural)]
pub struct Rgb565 {
    pub r: u8,
    pub g: u8,
    pub b: u8,
}

/// An RGB color with 6 bits of red, green and blue.
#[derive(Debug, Clone, Copy, PartialEq, Eq, Structural)]
pub struct Rgb666 {
    pub r: u8,
    pub g: u8,
    pub b: u8,
}

/// An RGB color with 8 bits of red, green and blue.
#[derive(Debug, Clone, Copy, PartialEq, Eq, Structural)]
pub struct Rgb888 {
    pub r: u8,
    pub g: u8,
    pub b: u8,
}

impl NativeColor for Rgb555 {
    open spec fn adapted(color: Color, role: TermColorType) -> Self {
        let c = adapted_channels(color, role, ChannelDepth::Bits555);
        Rgb555 { r: c.0 as u8, g: c.1 as u8, b: c.2 as u8 }
    }

    fn from_term(color: TermColor) -> (c: Self) {
        let (r, g, b) = adapt_channels(color, ChannelDepth::Bits555);
        Rgb555 { r, g, b }
    }
}

impl NativeColor for Rgb565 {
    open spec fn adapted(color: Color, role: TermColorType) -> Self {
        let c = adapted_channels(color, role, ChannelDepth::Bits565);
        Rgb565 { r: c.0 as u8, g: c.1 as u8, b: c.2 as u8 }
    }

    fn from_term(color: TermColor) -> (c: Self) {
        let (r, g, b) = adapt_channels(color, ChannelDepth::Bits565);
        Rgb565 { r, g, b }
    }
}

impl NativeColor for Rgb666 {
    open spec fn adapted(color: Color, role: TermColorType) -> Self {
        let c = adapted_channels(color, role, ChannelDepth::Bits666);
        Rgb666 { r: c.0 as u8, g: c.1 as u8, b: c.2 as u8 }
    }

    fn from_term(color: TermColor) -> (c: Self) {
        let (r, g, b) = adapt_channels(color, ChannelDepth::Bits666);
        Rgb666 { r, g, b }
    }
}

impl NativeColor for Rgb888 {
    open spec fn adapted(color: Color, role: TermColorType) -> Self {
        let c = adapted_channels(color, role, ChannelDepth::Bits888);
        Rgb888 { r: c.0 as u8, g: c.1 as u8, b: c.2 as u8 }
    }

    fn from_term(color: TermColor) -> (c: Self) {
        let (r, g, b) = adapt_channels(color, ChannelDepth::Bits888);
        Rgb888 { r, g, b }
    }
}

/// A monochrome display color.
#[derive(Debug, Clone, Copy, PartialEq, Eq, Structural)]
pub enum BinaryColor {
    Off,
    On,
}

impl NativeColor for BinaryColor {
    /// Black is off and white is on; every other color falls back to off as a
    /// foreground and on as a background.
    open spec fn adapted(color: Color, role: TermColorType) -> Self {
        match color {
            Color::Black => BinaryColor::Off,
            Color::White => BinaryColor::On,
            _ => match role {
                TermColorType::Foreground => BinaryColor::Off,
                TermColorType::Background => BinaryColor::On,
            },
        }
    }

    fn from_term(color: TermColor) -> (c: Self) {
        match color.0 {
            Color::Black => BinaryColor::Off,
            Color::White => BinaryColor::On,
            _ => match color.1 {
                TermColorType::Foreground => BinaryColor::Off,
                TermColorType::Background => BinaryColor::On,
            },
        }
    }
}

/// A color of a three-color e-paper display.
#[derive(Debug, Clone, Copy, PartialEq, Eq, Structural)]
pub enum TriColor {
    White,
    Black,
    Red,
}

impl NativeColor for TriColor {
    /// White, black and red map exactly; every other color falls back to black
    /// as a foreground and white as a background.
    open spec fn adapted(color: Color, role: TermColorType) -> Self {
        match color {
            Color::White => TriColor::White,
            Color::Black => TriColor::Black,
            Color::Red => TriColor::Red,
            _ => match role {
                TermColorType::Foreground => TriColor::Black,
                TermColorType::Background => TriColor::White,
            },
        }
    }

    fn from_term(color: TermColor) -> (c: Self) {
        match color.0 {
            Color::White => TriColor::White,
            Color::Black => TriColor::Black,
            Color::Red => TriColor::Red,
            _ => match color.1 {
                TermColorType::Foreground => TriColor::Black,
                TermColorType::Background => TriColor::White,
            },
        }
    }
}

/// Mapping a color is a function of the color and its role alone: equal
/// inputs give equal display colors, in every color type.
pub proof fn lemma_adapt_deterministic<C: NativeColor>(a: TermColor, b: TermColor)
    requires
        a == b,
    ensures
        C::adapted(a.0, a.1) == C::adapted(b.0, b.1),
{
}

/// In every RGB color model, Reset is white as a foreground and black as a
/// background.
pub proof fn lemma_reset_is_white_on_black(depth: ChannelDepth)
    ensures
        adapted_channels(Color::Reset, TermColorType::Foreground, depth)
            == adapted_channels(Color::White, TermColorType::Foreground, depth),
        adapted_channels(Color::Reset, TermColorType::Background, depth)
            == adapted_channels(Color::Black, TermColorType::Background, depth),
        Rgb555::adapted(Color::Reset, TermColorType::Foreground)
            == Rgb555::adapted(Color::White, TermColorType::Foreground),
        Rgb555::adapted(Color::Reset, TermColorType::Background)
            == Rgb555::adapted(Color::Black, TermColorType::Background),
        Rgb565::adapted(Color::Reset, TermColorType::Foreground)
            == Rgb565::adapted(Color::White, TermColorType::Foreground),
        Rgb565::adapted(Color::Reset, TermColorType::Background)
            == Rgb565::adapted(Color::Black, TermColorType::Background),
        Rgb666::adapted(Color::Reset, TermColorType::Foreground)
            == Rgb666::adapted(Color::White, TermColorType::Foreground),
        Rgb666::adapted(Color::Reset, TermColorType::Background)
            == Rgb666::adapted(Color::Black, TermColorType::Background),
        Rgb888::adapted(Color::Reset, TermColorType::Foreground)
            == Rgb888::adapted(Color::White, TermColorType::Foreground),
        Rgb888::adapted(Color::Reset, TermColorType::Background)
            == Rgb888::adapted(Color::Black, TermColorType::Background),
{
}

proof fn lemma_rescale_monotonic(v1: int, v2: int, to_max: int)
    requires
        0 <= v1 <= v2,
        0 <= to_max,
    ensures
        rescale_channel(v1, to_max) <= rescale_channel(v2, to_max),
{
    if to_max != 255 {
        let k = (to_max * 0x100_0000) / 255;
        assert(0 <= k) by (nonlinear_arith)
            requires
                0 <= to_max,
                k == (to_max * 0x100_0000) / 255,
        ;
        lemma_mul_inequality(v1, v2, k);
        lemma_div_is_ordered(v1 * k + 0x80_0000, v2 * k + 0x80_0000, 0x100_0000);
    }
}

proof fn lemma_rescale_bounds(v: int, to_max: int)
    requires
        0 <= v <= 255,
        0 <= to_max <= 255,
    ensures
        0 <= rescale_channel(v, to_max) <= to_max,
{
    if to_max != 255 {
        let k = (to_max * 0x100_0000) / 255;
        assert(0 <= k && k * 255 <= to_max * 0x100_0000) by (nonlinear_arith)
            requires
                0 <= to_max,
                k == (to_max * 0x100_0000) / 255,
        ;
        assert(0 <= v * k <= to_max * 0x100_0000) by (nonlinear_arith)
            requires
                0 <= v <= 255,
                0 <= k,
                k * 255 <= to_max * 0x100_0000,
        ;
        lemma_div_is_ordered(v * k + 0x80_0000, to_max * 0x100_0000 + 0x80_0000, 0x100_0000);
        assert((to_max * 0x100_0000 + 0x80_0000) / 0x100_0000 == to_max) by (nonlinear_arith)
            requires
                0 <= to_max,
        ;
    }
}

/// Rescaling into each model's channel range stays in range and keeps the order.
proof fn lemma_rescale_in_models(v1: int, v2: int)
    requires
        0 <= v1 <= v2 <= 255,
    ensures
        forall|to_max: int|
            #![trigger rescale_channel(v1, to_max)]
            to_max == 31 || to_max == 63 || to_max == 255 ==> 0 <= rescale_channel(v1, to_max)
                <= rescale_channel(v2, to_max) <= to_max,
{
    assert forall|to_max: int|
        #![trigger rescale_channel(v1, to_max)]
        to_max == 31 || to_max == 63 || to_max == 255 implies 0 <= rescale_channel(v1, to_max)
            <= rescale_channel(v2, to_max) <= to_max by {
        lemma_rescale_bounds(v1, to_max);
        lemma_rescale_bounds(v2, to_max);
        lemma_rescale_monotonic(v1, v2, to_max);
    }
}

/// Quantizing an `Rgb` color is monotonic in each channel: a channel that is
/// no smaller in the input is no smaller in the display color, in every RGB
/// color model and role.
pub proof fn lemma_rgb_quantization_monotonic(
    depth: ChannelDepth,
    role: TermColorType,
    r1: u8,
    g1: u8,
    b1: u8,
    r2: u8,
    g2: u8,
    b2: u8,
)
    requires
        r1 <= r2,
        g1 <= g2,
        b1 <= b2,
    ensures
        adapted_channels(Color::Rgb(r1, g1, b1), role, depth).0
            <= adapted_channels(Color::Rgb(r2, g2, b2), role, depth).0,
        adapted_channels(Color::Rgb(r1, g1, b1), role, depth).1
            <= adapted_channels(Color::Rgb(r2, g2, b2), role, depth).1,
        adapted_channels(Color::Rgb(r1, g1, b1), role, depth).2
            <= adapted_channels(Color::Rgb(r2, g2, b2), role, depth).2,
        Rgb565::adapted(Color::Rgb(r1, g1, b1), role).r <= Rgb565::adapted(Color::Rgb(r2, g2, b2), role).r,
        Rgb565::adapted(Color::Rgb(r1, g1, b1), role).g <= Rgb565::adapted(Color::Rgb(r2, g2, b2), role).g,
        Rgb565::adapted(Color::Rgb(r1, g1, b1), role).b <= Rgb565::adapted(Color::Rgb(r2, g2, b2), role).b,
        Rgb555::adapted(Color::Rgb(r1, g1, b1), role).r <= Rgb555::adapted(Color::Rgb(r2, g2, b2), role).r,
        Rgb555::adapted(Color::Rgb(r1, g1, b1), role).g <= Rgb555::adapted(Color::Rgb(r2, g2, b2), role).g,
        Rgb555::adapted(Color::Rgb(r1, g1, b1), role).b <= Rgb555::adapted(Color::Rgb(r2, g2, b2), role).b,
        Rgb666::adapted(Color::Rgb(r1, g1, b1), role).r <= Rgb666::adapted(Color::Rgb(r2, g2, b2), role).r,
        Rgb666::adapted(Color::Rgb(r1, g1, b1), role).g <= Rgb666::adapted(Color::Rgb(r2, g2, b2), role).g,
        Rgb666::adapted(Color::Rgb(r1, g1, b1), role).b <= Rgb666::adapted(Color::Rgb(r2, g2, b2), role).b,
        Rgb888::adapted(Color::Rgb(r1, g1, b1), role).r <= Rgb888::adapted(Color::Rgb(r2, g2, b2), role).r,
        Rgb888::adapted(Color::Rgb(r1, g1, b1), role).g <= Rgb888::adapted(Color::Rgb(r2, g2, b2), role).g,
        Rgb888::adapted(Color::Rgb(r1, g1, b1), role).b <= Rgb888::adapted(Color::Rgb(r2, g2, b2), role).b,
{
    lemma_rescale_in_models(r1 as int, r2 as int);
    lemma_rescale_in_models(g1 as int, g2 as int);
    lemma_rescale_in_models(b1 as int, b2 as int);
}

} // verus!
