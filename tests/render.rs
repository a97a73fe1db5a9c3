use embedded_graphics::mono_font::ascii::{FONT_4X6, FONT_6X10, FONT_6X13, FONT_6X13_BOLD};
use embedded_graphics::mono_font::{MonoFont, MonoTextStyleBuilder};
use embedded_graphics::pixelcolor::RgbColor;
use embedded_graphics::prelude::{Dimensions, DrawTarget, Drawable};
use embedded_graphics::text::{Baseline, Text};
use mousefood::{
    Cell, Color, EmbeddedBackend, EmbeddedBackendConfig, Modifiers, Pixel, Point, Rectangle,
    Rgb888, Size,
};

type EgRgb888 = embedded_graphics::pixelcolor::Rgb888;
type Core = EmbeddedBackend<Rgb888, MonoFont<'static>>;

/// Lets embedded-graphics draw into a backend's framebuffer.
struct Canvas<'a>(&'a mut Core);

impl Dimensions for Canvas<'_> {
    fn bounding_box(&self) -> embedded_graphics::primitives::Rectangle {
        let b = self.0.bounding_box();
        embedded_graphics::primitives::Rectangle::new(
            embedded_graphics::geometry::Point::new(b.top_left.x, b.top_left.y),
            embedded_graphics::geometry::Size::new(b.size.width, b.size.height),
        )
    }
}

impl DrawTarget for Canvas<'_> {
    type Color = EgRgb888;
    type Error = core::convert::Infallible;

    fn draw_iter<I>(&mut self, pixels: I) -> Result<(), Self::Error>
    where
        I: IntoIterator<Item = embedded_graphics::Pixel<Self::Color>>,
    {
        let pixels: Vec<Pixel<Rgb888>> = pixels
            .into_iter()
            .map(|embedded_graphics::Pixel(p, c)| {
                Pixel(Point { x: p.x, y: p.y }, Rgb888 { r: c.r(), g: c.g(), b: c.b() })
            })
            .collect();
        self.0.draw_pixels(&pixels);
        Ok(())
    }
}

fn eg(c: Rgb888) -> EgRgb888 {
    EgRgb888::new(c.r, c.g, c.b)
}

fn new_backend(width: u32, height: u32, regular: MonoFont<'static>, bold: Option<MonoFont<'static>>) -> Core {
    let size = regular.character_size;
    EmbeddedBackend::new(
        Rectangle { top_left: Point { x: 0, y: 0 }, size: Size { width, height } },
        EmbeddedBackendConfig {
            font_regular: regular,
            font_bold: bold,
            font_italic: None,
            character_size: Size { width: size.width, height: size.height },
        },
    )
}

/// Draws cells the way the ratatui backend does: plan each one, then let
/// embedded-graphics render its glyph.
fn draw_cells(core: &mut Core, cells: &[(u16, u16, Cell)]) {
    for (x, y, cell) in cells {
        let style = core.plan_cell(*x, *y, cell).unwrap();
        let font = *core.fonts().font(style.font);
        let text_style = MonoTextStyleBuilder::new()
            .font(&font)
            .text_color(eg(style.text_color))
            .background_color(eg(style.background_color))
            .build();
        Text::with_baseline(
            &cell.symbol,
            embedded_graphics::geometry::Point::new(style.position.x, style.position.y),
            text_style,
            Baseline::Top,
        )
        .draw(&mut Canvas(core))
        .unwrap();
    }
}

fn plain_cell(symbol: &str, bold: bool) -> Cell {
    Cell {
        symbol: symbol.to_string(),
        fg: Color::Reset,
        bg: Color::Reset,
        underline_color: Color::Reset,
        modifier: Modifiers {
            bold,
            dim: false,
            italic: false,
            underlined: false,
            slow_blink: false,
            rapid_blink: false,
            reversed: false,
            hidden: false,
            crossed_out: false,
        },
    }
}

/// The pixels of `text` drawn directly by embedded-graphics, white on black.
fn reference(width: u32, height: u32, text: &str, font: &MonoFont<'static>) -> Vec<Rgb888> {
    let mut target = new_backend(width, height, *font, None);
    let style = MonoTextStyleBuilder::new()
        .font(font)
        .text_color(EgRgb888::WHITE)
        .background_color(EgRgb888::BLACK)
        .build();
    Text::with_baseline(text, embedded_graphics::geometry::Point::zero(), style, Baseline::Top)
        .draw(&mut Canvas(&mut target))
        .unwrap();
    target.pixels()
}

#[test]
fn test_text_renders_end_to_end() {
    let mut backend = new_backend(16, 8, FONT_4X6, None);
    let cells: Vec<(u16, u16, Cell)> =
        "Test".chars().enumerate().map(|(i, c)| (i as u16, 0, plain_cell(&c.to_string(), false))).collect();
    draw_cells(&mut backend, &cells);
    let pixels = backend.pixels();
    assert_eq!(pixels.len(), 128);
    assert_eq!(pixels, reference(16, 8, "Test", &FONT_4X6));
    let white = Rgb888 { r: 255, g: 255, b: 255 };
    let black = Rgb888 { r: 0, g: 0, b: 0 };
    assert!(pixels.iter().any(|c| *c == white));
    assert!(pixels.iter().all(|c| *c == white || *c == black));
    // The rows below the glyph boxes stay black.
    assert!(pixels[6 * 16..].iter().all(|c| *c == black));
}

#[test]
fn bold_cell_without_bold_font_draws_regular_glyph() {
    let mut backend = new_backend(12, 10, FONT_6X10, None);
    draw_cells(&mut backend, &[(0, 0, plain_cell("B", true))]);
    let pixels = backend.pixels();
    assert_eq!(pixels, reference(12, 10, "B", &FONT_6X10));
    assert!(pixels.iter().any(|c| *c == Rgb888 { r: 255, g: 255, b: 255 }));
}

#[test]
fn bold_cell_uses_bold_font_when_configured() {
    let mut backend = new_backend(12, 13, FONT_6X13, Some(FONT_6X13_BOLD));
    draw_cells(&mut backend, &[(0, 0, plain_cell("B", true))]);
    assert_eq!(backend.pixels(), reference(12, 13, "B", &FONT_6X13_BOLD));
    assert_ne!(backend.pixels(), reference(12, 13, "B", &FONT_6X13));
}
