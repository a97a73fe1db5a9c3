use vstd::prelude::*;
use crate::colors::{adapt, is_supported, Color, NativeColor, TermColor, TermColorType};
use crate::error::Error;
use crate::framebuffer::{area, initial_pixels, painted, uniform, HeapBuffer, Pixel};
use crate::geometry::{Point, Position, Rectangle, Size, TermSize};

verus! {

/// The style modifiers of a cell.
#[derive(Debug, Clone, Copy, PartialEq, Eq, Structural)]
pub struct Modifiers {
    pub bold: bool,
    pub dim: bool,
    pub italic: bool,
    pub underlined: bool,
    pub slow_blink: bool,
    pub rapid_blink: bool,
    pub reversed: bool,
    pub hidden: bool,
    pub crossed_out: bool,
}

/// One styled character position of the terminal grid.
pub struct Cell {
    pub symbol: String,
    pub fg: Color,
    pub bg: Color,
    pub underline_color: Color,
    pub modifier: Modifiers,
}

/// Which font of a font set draws a glyph.
#[derive(Debug, Clone, Copy, PartialEq, Eq, Structural)]
pub enum FontChoice {
    Regular,
    Bold,
    Italic,
}

/// How a glyph is underlined.
#[derive(Debug, Clone, Copy, PartialEq, Eq)]
pub enum Underline<C> {
    Absent,
    /// In the glyph's own text color.
    TextColor,
    /// In a color of its own.
    Colored(C),
}

/// Everything needed to draw one cell's glyph, but the glyph's shape.
#[derive(Debug, Clone, Copy, PartialEq, Eq)]
pub struct GlyphStyle<C> {
    /// Top-left corner of the glyph box, in pixels.
    pub position: Point,
    pub font: FontChoice,
    pub text_color: C,
    pub background_color: C,
    pub underline: Underline<C>,
    pub strikethrough: bool,
}

/// The kinds of screen clear that a terminal-UI layer may ask for.
#[derive(Debug, Clone, Copy, PartialEq, Eq, Structural)]
pub enum ClearType {
    All,
    AfterCursor,
    BeforeCursor,
    CurrentLine,
    UntilNewLine,
}

/// The name of a clear kind.
pub open spec fn clear_type_name(kind: ClearType) -> Seq<char> {
    match kind {
        ClearType::All => "All"@,
        ClearType::AfterCursor => "AfterCursor"@,
        ClearType::BeforeCursor => "BeforeCursor"@,
        ClearType::CurrentLine => "CurrentLine"@,
        ClearType::UntilNewLine => "UntilNewLine"@,
    }
}

impl ClearType {
    /// The name of this clear kind.
    pub fn name(&self) -> (s: String)
        ensures
            s@ == clear_type_name(*self),
    {
        match self {
            ClearType::All => {
                proof {
                    reveal_strlit("All");
                }
                "All".to_owned()
            },
            ClearType::AfterCursor => {
                proof {
                    reveal_strlit("AfterCursor");
                }
                "AfterCursor".to_owned()
            },
            ClearType::BeforeCursor => {
                proof {
                    reveal_strlit("BeforeCursor");
                }
                "BeforeCursor".to_owned()
            },
            ClearType::CurrentLine => {
                proof {
                    reveal_strlit("CurrentLine");
                }
                "CurrentLine".to_owned()
            },
            ClearType::UntilNewLine => {
                proof {
                    reveal_strlit("UntilNewLine");
                }
                "UntilNewLine".to_owned()
            },
        }
    }
}

/// The grid size in cells and the display size in pixels.
#[derive(Debug, Clone, Copy, PartialEq, Eq, Structural)]
pub struct WindowSize {
    pub columns_rows: TermSize,
    pub pixels: TermSize,
}

/// The fonts that draw glyphs: a regular one, and optional bold and italic ones.
pub struct FontSet<F> {
    pub regular: F,
    pub bold: Option<F>,
    pub italic: Option<F>,
}

/// The font that a cell's modifiers ask for. Modifiers are taken in the order
/// bold, italic, each replacing the choice before it, so italic wins over
/// bold; a missing font falls back to the regular one.
pub open spec fn font_choice(m: Modifiers, has_bold: bool, has_italic: bool) -> FontChoice {
    if m.italic {
        if has_italic {
            FontChoice::Italic
        } else {
            FontChoice::Regular
        }
    } else if m.bold {
        if has_bold {
            FontChoice::Bold
        } else {
            FontChoice::Regular
        }
    } else {
        FontChoice::Regular
    }
}

impl<F> FontSet<F> {
    /// The font that a choice names; a missing bold or italic font is the regular one.
    pub open spec fn spec_font(&self, choice: FontChoice) -> F {
        match choice {
            FontChoice::Regular => self.regular,
            FontChoice::Bold => match self.bold {
                Some(f) => f,
                None => self.regular,
            },
            FontChoice::Italic => match self.italic {
                Some(f) => f,
                None => self.regular,
            },
        }
    }

    /// The font choice for a cell's modifiers with this set.
    pub open spec fn spec_select(&self, m: Modifiers) -> FontChoice {
        font_choice(m, self.bold is Some, self.italic is Some)
    }

    /// Picks the font for a cell's modifiers.
    pub fn select(&self, m: &Modifiers) -> (c: FontChoice)
        ensures
            c == self.spec_select(*m),
    {
        let has_bold = match &self.bold {
            Some(_) => true,
            None => false,
        };
        let has_italic = match &self.italic {
            Some(_) => true,
            None => false,
        };
        if m.italic {
            if has_italic {
                FontChoice::Italic
            } else {
                FontChoice::Regular
            }
        } else if m.bold {
            if has_bold {
                FontChoice::Bold
            } else {
                FontChoice::Regular
            }
        } else {
            FontChoice::Regular
        }
    }

    /// The font that a choice names.
    pub fn font(&self, choice: FontChoice) -> (f: &F)
        ensures
            *f == self.spec_font(choice),
    {
        match choice {
            FontChoice::Regular => &self.regular,
            FontChoice::Bold => match &self.bold {
                Some(f) => f,
                None => &self.regular,
            },
            FontChoice::Italic => match &self.italic {
                Some(f) => f,
                None => &self.regular,
            },
        }
    }
}

/// Configuration of a backend: its fonts and the size of the regular font's
/// character box, in pixels.
pub struct EmbeddedBackendConfig<F> {
    pub font_regular: F,
    pub font_bold: Option<F>,
    pub font_italic: Option<F>,
    pub character_size: Size,
}

/// Whether a cell's colors can all be mapped: foreground, background, and an
/// underline color other than Reset.
pub open spec fn cell_supported(cell: &Cell) -> bool {
    &&& is_supported(cell.fg)
    &&& is_supported(cell.bg)
    &&& (cell.underline_color != Color::Reset ==> is_supported(cell.underline_color))
}

/// The underline of a cell: an underline color other than Reset underlines in
/// that color whatever the modifiers say; otherwise the underlined modifier
/// underlines in the text color.
pub open spec fn underline_of<C: NativeColor>(cell: &Cell) -> Underline<C> {
    if cell.underline_color != Color::Reset {
        Underline::Colored(C::adapted(cell.underline_color, TermColorType::Foreground))
    } else if cell.modifier.underlined {
        Underline::TextColor
    } else {
        Underline::Absent
    }
}

/// The style of the glyph of a cell at column `x` and row `y`, with character
/// boxes of `char_size` pixels. Dim, blink, reversed and hidden do not change it.
pub open spec fn cell_style<C: NativeColor, F>(
    x: u16,
    y: u16,
    cell: &Cell,
    char_size: Size,
    fonts: &FontSet<F>,
) -> GlyphStyle<C> {
    GlyphStyle {
        position: Point {
            x: (x as int * char_size.width as int) as i32,
            y: (y as int * char_size.height as int) as i32,
        },
        font: fonts.spec_select(cell.modifier),
        text_color: C::adapted(cell.fg, TermColorType::Foreground),
        background_color: C::adapted(cell.bg, TermColorType::Background),
        underline: underline_of::<C>(cell),
        strikethrough: cell.modifier.crossed_out,
    }
}

/// The rendering state of a terminal on a pixel display: the framebuffer that
/// frames are composed in, the fonts, and the grid geometry fixed at creation.
pub struct EmbeddedBackend<C, F> {
    buffer: HeapBuffer<C>,
    fonts: FontSet<F>,
    character_size: Size,
    columns_rows: TermSize,
    pixels: TermSize,
}

impl<C, F> EmbeddedBackend<C, F> {
    /// The framebuffer's pixels.
    pub closed spec fn spec_pixels(&self) -> Seq<C> {
        self.buffer@
    }

    /// The framebuffer's area.
    pub closed spec fn spec_bounding_box(&self) -> Rectangle {
        self.buffer.spec_bounding_box()
    }

    /// The fonts that draw glyphs.
    pub closed spec fn spec_fonts(&self) -> &FontSet<F> {
        &self.fonts
    }

    /// The regular font's character box, in pixels.
    pub closed spec fn spec_character_size(&self) -> Size {
        self.character_size
    }

    /// The grid size in cells.
    pub closed spec fn spec_columns_rows(&self) -> TermSize {
        self.columns_rows
    }

    /// The display size in pixels, as the terminal-UI layer counts it.
    pub closed spec fn spec_pixel_size(&self) -> TermSize {
        self.pixels
    }

    /// The framebuffer is well formed and every cell position fits a display coordinate.
    pub open spec fn wf(&self) -> bool {
        &&& self.spec_pixels().len() == area(self.spec_bounding_box())
        &&& 1 <= self.spec_character_size().width <= 0x7fff
        &&& 1 <= self.spec_character_size().height <= 0x7fff
    }
}

impl<C: NativeColor, F> EmbeddedBackend<C, F> {
    /// Creates the backend for a display area. The pixel size is the area's
    /// size truncated to 16-bit numbers; the grid has as many whole character
    /// boxes as fit in it.
    pub fn new(bounding_box: Rectangle, config: EmbeddedBackendConfig<F>) -> (b: Self)
        requires
            area(bounding_box) <= usize::MAX,
            1 <= config.character_size.width <= 0x7fff,
            1 <= config.character_size.height <= 0x7fff,
        ensures
            b.wf(),
            b.spec_pixels() == initial_pixels::<C>(bounding_box),
            b.spec_bounding_box() == bounding_box,
            b.spec_character_size() == config.character_size,
            *b.spec_fonts() == (FontSet {
                regular: config.font_regular,
                bold: config.font_bold,
                italic: config.font_italic,
            }),
            b.spec_pixel_size() == (TermSize {
                width: (bounding_box.size.width % 0x10000) as u16,
                height: (bounding_box.size.height % 0x10000) as u16,
            }),
            b.spec_columns_rows() == (TermSize {
                width: (b.spec_pixel_size().width as int / config.character_size.width as int) as u16,
                height: (b.spec_pixel_size().height as int / config.character_size.height as int) as u16,
            }),
    {
        let pixels = TermSize {
            width: (bounding_box.size.width % 0x10000) as u16,
            height: (bounding_box.size.height % 0x10000) as u16,
        };
        let char_width = config.character_size.width as u16;
        let char_height = config.character_size.height as u16;
        let buffer = HeapBuffer::new(bounding_box);
        EmbeddedBackend {
            buffer,
            fonts: FontSet {
                regular: config.font_regular,
                bold: config.font_bold,
                italic: config.font_italic,
            },
            character_size: config.character_size,
            columns_rows: TermSize {
                width: pixels.width / char_width,
                height: pixels.height / char_height,
            },
            pixels,
        }
    }

    /// The style that draws the glyph of a cell at column `x` and row `y`:
    /// where, in which font, in which colors and with which decorations.
    /// Fails with `UnsupportedColor` exactly when one of its colors cannot be mapped.
    pub fn plan_cell(&self, x: u16, y: u16, cell: &Cell) -> (r: Result<GlyphStyle<C>, Error>)
        requires
            self.wf(),
        ensures
            match r {
                Ok(s) => cell_supported(cell) && s == cell_style::<C, F>(
                    x,
                    y,
                    cell,
                    self.spec_character_size(),
                    self.spec_fonts(),
                ),
                Err(e) => !cell_supported(cell) && e is UnsupportedColor,
            },
    {
        let text_color = match adapt::<C>(TermColor(cell.fg, TermColorType::Foreground)) {
            Ok(c) => c,
            Err(e) => {
                return Err(e);
            },
        };
        let background_color = match adapt::<C>(TermColor(cell.bg, TermColorType::Background)) {
            Ok(c) => c,
            Err(e) => {
                return Err(e);
            },
        };
        let underline = if cell.underline_color != Color::Reset {
            match adapt::<C>(TermColor(cell.underline_color, TermColorType::Foreground)) {
                Ok(c) => Underline::Colored(c),
                Err(e) => {
                    return Err(e);
                },
            }
        } else if cell.modifier.underlined {
            Underline::TextColor
        } else {
            Underline::Absent
        };
        let cw = self.character_size.width as i32;
        let ch = self.character_size.height as i32;
        assert(0 <= x as int * cw <= 0xffff * 0x7fff) by (nonlinear_arith)
            requires
                0 <= x <= 0xffff,
                1 <= cw <= 0x7fff,
        ;
        assert(0 <= y as int * ch <= 0xffff * 0x7fff) by (nonlinear_arith)
            requires
                0 <= y <= 0xffff,
                1 <= ch <= 0x7fff,
        ;
        Ok(
            GlyphStyle {
                position: Point { x: x as i32 * cw, y: y as i32 * ch },
                font: self.fonts.select(&cell.modifier),
                text_color,
                background_color,
                underline,
                strikethrough: cell.modifier.crossed_out,
            },
        )
    }

    /// Resets every pixel of the framebuffer to the Reset background color.
    pub fn clear(&mut self) -> (r: Result<(), Error>)
        requires
            old(self).wf(),
        ensures
            r is Ok,
            final(self).wf(),
            final(self).spec_pixels() == uniform(
                old(self).spec_pixels().len(),
                C::adapted(Color::Reset, TermColorType::Background),
            ),
            final(self).spec_bounding_box() == old(self).spec_bounding_box(),
            final(self).spec_fonts() == old(self).spec_fonts(),
            final(self).spec_character_size() == old(self).spec_character_size(),
            final(self).spec_columns_rows() == old(self).spec_columns_rows(),
            final(self).spec_pixel_size() == old(self).spec_pixel_size(),
    {
        let fill = C::from_term(TermColor(Color::Reset, TermColorType::Background));
        self.buffer.clear(fill);
        Ok(())
    }

    /// Clears the whole screen; every partial clear is refused with
    /// `ClearTypeUnsupported` naming the kind, and leaves the pixels as they are.
    pub fn clear_region(&mut self, clear_type: ClearType) -> (r: Result<(), Error>)
        requires
            old(self).wf(),
        ensures
            final(self).wf(),
            clear_type is All ==> r is Ok && final(self).spec_pixels() == uniform(
                old(self).spec_pixels().len(),
                C::adapted(Color::Reset, TermColorType::Background),
            ),
            !(clear_type is All) ==> final(self).spec_pixels() == old(self).spec_pixels()
                && match r {
                Ok(_) => false,
                Err(e) => e matches Error::ClearTypeUnsupported(name) && name@ == clear_type_name(
                    clear_type,
                ),
            },
            final(self).spec_bounding_box() == old(self).spec_bounding_box(),
            final(self).spec_fonts() == old(self).spec_fonts(),
            final(self).spec_character_size() == old(self).spec_character_size(),
            final(self).spec_columns_rows() == old(self).spec_columns_rows(),
            final(self).spec_pixel_size() == old(self).spec_pixel_size(),
    {
        match clear_type {
            ClearType::All => self.clear(),
            _ => Err(Error::ClearTypeUnsupported(clear_type.name())),
        }
    }

    /// Writes rasterized glyph pixels into the framebuffer, as `HeapBuffer::draw_pixels` does.
    pub fn draw_pixels(&mut self, pixels: &Vec<Pixel<C>>)
        requires
            old(self).wf(),
        ensures
            final(self).wf(),
            final(self).spec_pixels() == painted(
                old(self).spec_pixels(),
                old(self).spec_bounding_box().size.width as int,
                pixels@,
            ),
            final(self).spec_bounding_box() == old(self).spec_bounding_box(),
            final(self).spec_fonts() == old(self).spec_fonts(),
            final(self).spec_character_size() == old(self).spec_character_size(),
            final(self).spec_columns_rows() == old(self).spec_columns_rows(),
            final(self).spec_pixel_size() == old(self).spec_pixel_size(),
    {
        self.buffer.draw_pixels(pixels);
    }
}

impl<C: Copy, F> EmbeddedBackend<C, F> {
    /// The framebuffer's pixels in row-major order, for a transfer to the display.
    pub fn pixels(&self) -> (r: Vec<C>)
        ensures
            r@ == self.spec_pixels(),
    {
        self.buffer.pixels()
    }

    /// The framebuffer's area.
    pub fn bounding_box(&self) -> (r: Rectangle)
        ensures
            r == self.spec_bounding_box(),
    {
        self.buffer.bounding_box()
    }

    /// The fonts.
    pub fn fonts(&self) -> (r: &FontSet<F>)
        ensures
            r == self.spec_fonts(),
    {
        &self.fonts
    }

    /// The grid size in cells, as computed at creation.
    pub fn size(&self) -> (r: Result<TermSize, Error>)
        ensures
            r == Ok::<TermSize, Error>(self.spec_columns_rows()),
    {
        Ok(self.columns_rows)
    }

    /// The grid size in cells and the display size in pixels.
    pub fn window_size(&self) -> (r: Result<WindowSize, Error>)
        ensures
            r == Ok::<WindowSize, Error>(
                WindowSize { columns_rows: self.spec_columns_rows(), pixels: self.spec_pixel_size() },
            ),
    {
        Ok(WindowSize { columns_rows: self.columns_rows, pixels: self.pixels })
    }

    /// No cursor is drawn, so hiding it does nothing.
    pub fn hide_cursor(&mut self) -> (r: Result<(), Error>)
        ensures
            r is Ok,
            *final(self) == *old(self),
    {
        Ok(())
    }

    /// No cursor is drawn, so showing it does nothing.
    pub fn show_cursor(&mut self) -> (r: Result<(), Error>)
        ensures
            r is Ok,
            *final(self) == *old(self),
    {
        Ok(())
    }

    /// No cursor is tracked: its position is always the origin.
    pub fn get_cursor_position(&self) -> (r: Result<Position, Error>)
        ensures
            r == Ok::<Position, Error>(Position { x: 0, y: 0 }),
    {
        Ok(Position { x: 0, y: 0 })
    }

    /// No cursor is tracked, so moving it does nothing.
    pub fn set_cursor_position(&mut self, position: Position) -> (r: Result<(), Error>)
        ensures
            r is Ok,
            *final(self) == *old(self),
    {
        Ok(())
    }
}

} // verus!
