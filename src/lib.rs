//! Renders a styled terminal cell grid onto pixel displays through an
//! in-memory framebuffer.

pub mod backend;
pub mod colors;
pub mod error;
pub mod framebuffer;
pub mod geometry;

pub use backend::{
    Cell, ClearType, EmbeddedBackend, EmbeddedBackendConfig, FontChoice, FontSet, GlyphStyle,
    Modifiers, Underline, WindowSize,
};
pub use colors::{
    adapt, adapt_channels, channel_max_of, convert_rgb888, BinaryColor, ChannelDepth, Color,
    NativeColor, Rgb555, Rgb565, Rgb666, Rgb888, TermColor, TermColorType, TriColor,
};
pub use error::{DrawError, Error};
pub use framebuffer::{HeapBuffer, Pixel};
pub use geometry::{Point, Position, Rectangle, Size, TermSize};
