use vstd::prelude::*;

verus! {

/// A dense 2D raster with fixed dimensions, addressed by `(x, y)` with
/// `0 <= x < width` and `0 <= y < height`.
///
/// Pixels are stored as one flat row-major sequence: pixel `(x, y)` lives at
/// index `x + y * width`, so `x` is the fast-varying dimension. The raster is
/// generic in its pixel type; a renderer composes colours in whatever value
/// type it likes and the encoder consumes a canvas of byte triples.
#[derive(Clone, Debug)]
pub struct Canvas<T> {
    width: usize,
    height: usize,
    content: Vec<T>,
}

impl<T> View for Canvas<T> {
    type V = Seq<T>;

    /// The pixels as one row-major sequence.
    closed spec fn view(&self) -> Seq<T> {
        self.content@
    }
}

impl<T> Canvas<T> {
    pub closed spec fn spec_width(&self) -> usize {
        self.width
    }

    pub closed spec fn spec_height(&self) -> usize {
        self.height
    }

    /// The backing sequence holds exactly one pixel per coordinate pair.
    pub open spec fn wf(&self) -> bool {
        self@.len() == self.spec_width() * self.spec_height()
    }

    /// The row-major index of pixel `(x, y)`.
    pub open spec fn spec_index_of(&self, x: usize, y: usize) -> int {
        x + y * self.spec_width()
    }

    pub fn height(&self) -> (height: usize)
        ensures
            height == self.spec_height(),
    {
        self.height
    }

    pub fn width(&self) -> (width: usize)
        ensures
            width == self.spec_width(),
    {
        self.width
    }

    /// Maps `(x, y)` to its offset in the flat pixel sequence, and shows the
    /// offset in bounds: every in-range coordinate pair addresses a distinct
    /// slot of the backing sequence.
    fn map_coordinates(&self, x: usize, y: usize) -> (position: usize)
        requires
            self.wf(),
            x < self.spec_width(),
            y < self.spec_height(),
        ensures
            position == self.spec_index_of(x, y),
            position < self@.len(),
    {
        let total = self.content.len();
        proof {
            assert(x + y * self.spec_width() < self.spec_width() * self.spec_height())
                by (nonlinear_arith)
                requires
                    x < self.spec_width(),
                    y < self.spec_height(),
            ;
            assert(x + y * self.spec_width() < total);
        }
        x + (y * self.width)
    }
}

impl<T: Copy> Canvas<T> {
    /// Allocates a `width` by `height` raster with every pixel set to `fill`.
    pub fn new(width: usize, height: usize, fill: T) -> (canvas: Canvas<T>)
        requires
            width * height <= usize::MAX,
        ensures
            canvas.wf(),
            canvas.spec_width() == width,
            canvas.spec_height() == height,
            canvas@.len() == width * height,
            forall|i: int| 0 <= i < canvas@.len() ==> canvas@[i] == fill,
    {
        let size = width * height;
        let mut content: Vec<T> = Vec::new();
        let mut filled: usize = 0;
        while filled < size
            invariant
                filled <= size,
                content@.len() == filled,
                forall|i: int| 0 <= i < filled ==> content@[i] == fill,
            decreases size - filled,
        {
            content.push(fill);
            filled = filled + 1;
        }
        Canvas { width, height, content }
    }

    /// A copy of the full pixel sequence in row-major order, for bulk
    /// consumers such as the encoder.
    pub fn content(&self) -> (content: Vec<T>)
        ensures
            content@ == self@,
    {
        let mut content: Vec<T> = Vec::new();
        let mut copied: usize = 0;
        let total = self.content.len();
        while copied < total
            invariant
                copied <= total,
                total == self@.len(),
                content@ == self@.take(copied as int),
            decreases total - copied,
        {
            content.push(self.content[copied]);
            proof {
                assert(content@ =~= self@.take(copied + 1));
            }
            copied = copied + 1;
        }
        proof {
            assert(self@.take(total as int) =~= self@);
        }
        content
    }

    /// Reads the pixel at `(x, y)`.
    pub fn get_pixel(&self, x: usize, y: usize) -> (pixel: T)
        requires
            self.wf(),
            x < self.spec_width(),
            y < self.spec_height(),
        ensures
            pixel == self@[self.spec_index_of(x, y)],
    {
        let mapped_position = self.map_coordinates(x, y);
        self.content[mapped_position]
    }

    /// Writes `pixel` at `(x, y)`; every other pixel keeps its value.
    pub fn set_pixel(&mut self, x: usize, y: usize, pixel: T)
        requires
            old(self).wf(),
            x < old(self).spec_width(),
            y < old(self).spec_height(),
        ensures
            final(self).wf(),
            final(self).spec_width() == old(self).spec_width(),
            final(self).spec_height() == old(self).spec_height(),
            final(self)@ == old(self)@.update(old(self).spec_index_of(x, y), pixel),
    {
        let mapped_position = self.map_coordinates(x, y);
        self.content[mapped_position] = pixel;
    }
}

/// Writing a pixel and then reading the same coordinates gives back exactly
/// the colour written, and no other slot of the raster changes.
///
/// The sequence arguments mirror the contracts of `set_pixel` (whose result
/// view is `content.update(x + y * width, pixel)`) and `get_pixel` (which
/// returns the slot at `x + y * width`).
pub proof fn lemma_pixel_round_trip<T>(
    content: Seq<T>,
    width: nat,
    height: nat,
    x: nat,
    y: nat,
    pixel: T,
)
    requires
        content.len() == width * height,
        x < width,
        y < height,
    ensures
        content.update(x + y * width as int, pixel)[x + y * width as int] == pixel,
        forall|i: int|
            0 <= i < content.len() && i != x + y * width ==> content.update(
                x + y * width as int,
                pixel,
            )[i] == content[i],
{
    assert(x + y * width < width * height) by (nonlinear_arith)
        requires
            x < width,
            y < height,
    ;
}

} // verus!
