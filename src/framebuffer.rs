use vstd::prelude::*;
use crate::colors::{Color, NativeColor, TermColor, TermColorType};
use crate::geometry::{Point, Rectangle};

verus! {

/// A pixel to write: where, and in which color.
#[derive(Debug, Clone, Copy, PartialEq, Eq)]
pub struct Pixel<C>(pub Point, pub C);

/// The number of pixels in an area.
pub open spec fn area(bounding_box: Rectangle) -> int {
    bounding_box.size.width as int * bounding_box.size.height as int
}

/// The row-major index that a write to `(x, y)` lands on, in a buffer of
/// `len` pixels and rows of `width`: `y * width + x`, clamped into `[0, len - 1]`.
pub open spec fn pixel_index(x: int, y: int, width: int, len: int) -> int {
    let idx = y * width + x;
    if idx < 0 {
        0
    } else if idx > len - 1 {
        len - 1
    } else {
        idx
    }
}

/// The pixels after one write; an empty buffer stays empty.
pub open spec fn written<C>(pixels: Seq<C>, width: int, p: Pixel<C>) -> Seq<C> {
    if pixels.len() == 0 {
        pixels
    } else {
        pixels.update(pixel_index(p.0.x as int, p.0.y as int, width, pixels.len() as int), p.1)
    }
}

/// The pixels after a sequence of writes, made in order.
pub open spec fn painted<C>(pixels: Seq<C>, width: int, writes: Seq<Pixel<C>>) -> Seq<C>
    decreases writes.len(),
{
    if writes.len() == 0 {
        pixels
    } else {
        written(painted(pixels, width, writes.drop_last()), width, writes.last())
    }
}

/// `len` pixels, all of one color.
pub open spec fn uniform<C>(len: nat, color: C) -> Seq<C> {
    Seq::new(len, |_i: int| color)
}

/// The pixels of a new framebuffer: the whole area in the Reset background color.
pub open spec fn initial_pixels<C: NativeColor>(bounding_box: Rectangle) -> Seq<C> {
    uniform(area(bounding_box) as nat, C::adapted(Color::Reset, TermColorType::Background))
}

/// A heap-allocated framebuffer: the pixels of a display area in row-major order.
pub struct HeapBuffer<C> {
    data: Vec<C>,
    bounding_box: Rectangle,
}

impl<C> View for HeapBuffer<C> {
    type V = Seq<C>;

    closed spec fn view(&self) -> Seq<C> {
        self.data@
    }
}

impl<C> HeapBuffer<C> {
    /// The display area that this buffer covers.
    pub closed spec fn spec_bounding_box(&self) -> Rectangle {
        self.bounding_box
    }

    /// A buffer holds one pixel for each point of its area.
    pub open spec fn wf(&self) -> bool {
        self@.len() == area(self.spec_bounding_box())
    }
}

impl<C: Copy> HeapBuffer<C> {
    /// Creates a buffer over an area, every pixel in the Reset background color.
    pub fn new(bounding_box: Rectangle) -> (b: HeapBuffer<C>)
        where
            C: NativeColor,
        requires
            area(bounding_box) <= usize::MAX,
        ensures
            b.wf(),
            b@ == initial_pixels::<C>(bounding_box),
            b.spec_bounding_box() == bounding_box,
    {
        let fill = C::from_term(TermColor(Color::Reset, TermColorType::Background));
        let n: usize = (bounding_box.size.width as usize) * (bounding_box.size.height as usize);
        let mut data: Vec<C> = Vec::new();
        let mut i: usize = 0;
        while i < n
            invariant
                i <= n,
                n == area(bounding_box),
                data@ == uniform(i as nat, fill),
            decreases n - i,
        {
            data.push(fill);
            i = i + 1;
            assert(data@ =~= uniform(i as nat, fill));
        }
        HeapBuffer { data, bounding_box }
    }

    /// The display area that this buffer covers.
    pub fn bounding_box(&self) -> (r: Rectangle)
        ensures
            r == self.spec_bounding_box(),
    {
        self.bounding_box
    }

    /// All pixels in row-major order, for a transfer to the display.
    pub fn pixels(&self) -> (r: Vec<C>)
        ensures
            r@ == self@,
    {
        let mut r: Vec<C> = Vec::new();
        let mut i: usize = 0;
        while i < self.data.len()
            invariant
                i <= self.data@.len(),
                r@ == self.data@.take(i as int),
            decreases self.data@.len() - i,
        {
            r.push(self.data[i]);
            i = i + 1;
            assert(r@ =~= self.data@.take(i as int));
        }
        assert(r@ =~= self.data@);
        r
    }

    /// Writes one pixel. The index `y * width + x` is clamped into the buffer,
    /// so a write outside the area lands on the first or last pixel instead of
    /// failing; on an empty buffer nothing happens.
    pub fn draw_pixel(&mut self, pixel: Pixel<C>)
        requires
            old(self).wf(),
        ensures
            final(self).wf(),
            final(self)@ == written(old(self)@, old(self).spec_bounding_box().size.width as int, pixel),
            final(self).spec_bounding_box() == old(self).spec_bounding_box(),
    {
        let len = self.data.len();
        if len > 0 {
            let y = pixel.0.y as i128;
            let w = self.bounding_box.size.width as i128;
            assert(-0x8000_0000_0000_0000 <= y * w <= 0x8000_0000_0000_0000) by (nonlinear_arith)
                requires
                    -0x8000_0000 <= y < 0x8000_0000,
                    0 <= w < 0x1_0000_0000,
            ;
            let idx = y * w + pixel.0.x as i128;
            let clamped: usize = if idx < 0 {
                0
            } else if idx > (len - 1) as i128 {
                len - 1
            } else {
                idx as usize
            };
            self.data.set(clamped, pixel.1);
        }
    }

    /// Writes pixels one after the other, each as `draw_pixel` does.
    pub fn draw_pixels(&mut self, pixels: &Vec<Pixel<C>>)
        requires
            old(self).wf(),
        ensures
            final(self).wf(),
            final(self)@ == painted(old(self)@, old(self).spec_bounding_box().size.width as int, pixels@),
            final(self).spec_bounding_box() == old(self).spec_bounding_box(),
    {
        let ghost width = self.bounding_box.size.width as int;
        let mut i: usize = 0;
        while i < pixels.len()
            invariant
                i <= pixels@.len(),
                width == old(self).spec_bounding_box().size.width as int,
                self.wf(),
                self.spec_bounding_box() == old(self).spec_bounding_box(),
                self@ == painted(old(self)@, width, pixels@.take(i as int)),
            decreases pixels@.len() - i,
        {
            self.draw_pixel(pixels[i]);
            assert(pixels@.take(i + 1).drop_last() =~= pixels@.take(i as int));
            i = i + 1;
        }
        assert(pixels@.take(i as int) =~= pixels@);
    }

    /// Sets every pixel to one color.
    pub fn clear(&mut self, color: C)
        requires
            old(self).wf(),
        ensures
            final(self).wf(),
            final(self)@ == uniform(old(self)@.len(), color),
            final(self).spec_bounding_box() == old(self).spec_bounding_box(),
    {
        let n = self.data.len();
        let mut i: usize = 0;
        while i < n
            invariant
                i <= n,
                n == old(self)@.len(),
                self@.len() == n,
                self.spec_bounding_box() == old(self).spec_bounding_box(),
                self.wf(),
                forall|j: int| 0 <= j < i ==> self@[j] == color,
            decreases n - i,
        {
            self.data.set(i, color);
            i = i + 1;
        }
        assert(self@ =~= uniform(n as nat, color));
    }
}

/// A new buffer holds `width * height` pixels, all in the Reset background color.
pub proof fn lemma_new_buffer_pixels<C: NativeColor>(bounding_box: Rectangle)
    ensures
        initial_pixels::<C>(bounding_box).len() == bounding_box.size.width as int
            * bounding_box.size.height as int,
        forall|i: int|
            0 <= i < initial_pixels::<C>(bounding_box).len() ==> #[trigger] initial_pixels::<C>(
                bounding_box,
            )[i] == C::adapted(Color::Reset, TermColorType::Background),
{
    assert(bounding_box.size.width as int * bounding_box.size.height as int >= 0) by (nonlinear_arith);
}

/// A write below the last row, or right of the last column on the last row,
/// lands on the last pixel.
pub proof fn lemma_out_of_range_write_clamps(x: int, y: int, width: int, height: int)
    requires
        width > 0,
        height > 0,
        x >= 0,
        y >= 0,
        y >= height || (x >= width && y == height - 1),
    ensures
        pixel_index(x, y, width, width * height) == width * height - 1,
{
    if y >= height {
        assert(y * width >= height * width) by (nonlinear_arith)
            requires
                y >= height,
                width > 0,
        ;
    } else {
        assert(y * width + width == height * width) by (nonlinear_arith)
            requires
                y == height - 1,
        ;
    }
}

/// After a clear, every pixel has the clear color, whatever was drawn before.
pub proof fn lemma_cleared_pixels<C>(before: Seq<C>, color: C)
    ensures
        uniform(before.len(), color).len() == before.len(),
        forall|i: int| 0 <= i < before.len() ==> #[trigger] uniform(before.len(), color)[i] == color,
{
}

} // verus!
