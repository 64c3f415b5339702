//! Images as rows of pixels stored one row after another.
use vstd::prelude::*;

verus! {

/// A position: column `x`, row `y`.
#[derive(Clone, Copy, Debug, PartialEq, Eq, Structural, Default)]
pub struct XY {
    pub x: usize,
    pub y: usize,
}

impl From<(usize, usize)> for XY {
    fn from(tuple: (usize, usize)) -> (res: XY)
        ensures
            res == (XY { x: tuple.0, y: tuple.1 }),
    {
        XY { x: tuple.0, y: tuple.1 }
    }
}

impl vstd::std_specs::convert::FromSpecImpl<(usize, usize)> for XY {
    open spec fn obeys_from_spec() -> bool {
        true
    }

    open spec fn from_spec(arg: (usize, usize)) -> XY {
        XY { x: arg.0, y: arg.1 }
    }
}

/// The width and height of an image.
#[derive(Clone, Copy, Debug, PartialEq, Eq, Structural, Default)]
pub struct Size {
    pub width: usize,
    pub height: usize,
}

impl From<(usize, usize)> for Size {
    fn from(tuple: (usize, usize)) -> (res: Size)
        ensures
            res == (Size { width: tuple.0, height: tuple.1 }),
    {
        Size { width: tuple.0, height: tuple.1 }
    }
}

impl vstd::std_specs::convert::FromSpecImpl<(usize, usize)> for Size {
    open spec fn obeys_from_spec() -> bool {
        true
    }

    open spec fn from_spec(arg: (usize, usize)) -> Size {
        Size { width: arg.0, height: arg.1 }
    }
}

impl Size {
    /// The number of pixels.
    pub fn area(&self) -> (res: usize)
        requires
            self.width * self.height <= usize::MAX,
        ensures
            res == self.width * self.height,
    {
        self.width * self.height
    }
}

/// A change applied to each pixel of an image.
pub trait Transformer<P: Copy> {
    /// What the transformer makes of a pixel.
    spec fn transformed_pixel(&self, pixel: P) -> P;

    fn transform(&self, pixel: &P) -> (res: P)
        ensures
            res == self.transformed_pixel(*pixel),
    ;
}

/// An image: `height` rows of `width` pixels, row after row.
#[derive(Clone, Debug, PartialEq, Eq)]
pub struct GenericImage<P> {
    pub width: usize,
    pub height: usize,
    pub pixels: Vec<P>,
}

/// An image with as many pixels as its width and height call for.
pub open spec fn image_ok<P>(image: GenericImage<P>) -> bool {
    image.pixels@.len() == image.width * image.height
}

/// The smaller of two numbers.
pub open spec fn min_usize(a: usize, b: usize) -> usize {
    if a < b {
        a
    } else {
        b
    }
}

/// Where `row * width + col` falls in an image of `rows` rows.
proof fn lemma_index_in_range(row: int, col: int, width: int, rows: int)
    requires
        0 <= row < rows,
        0 <= col < width,
    ensures
        0 <= row * width + col < rows * width,
{
    vstd::arithmetic::mul::lemma_mul_inequality(row + 1, rows, width);
    vstd::arithmetic::mul::lemma_mul_is_distributive_add_other_way(width, row, 1);
    vstd::arithmetic::mul::lemma_mul_nonnegative(row, width);
}

impl<P: Copy + Default> GenericImage<P> {
    /// An image of the given size with every pixel the default.
    pub fn new(width: usize, height: usize) -> (res: GenericImage<P>)
        requires
            width * height <= usize::MAX,
        ensures
            res.width == width,
            res.height == height,
            image_ok(res),
            forall|i: int, j: int|
                0 <= i < res.pixels@.len() && 0 <= j < res.pixels@.len() ==> res.pixels@[i]
                    == res.pixels@[j],
    {
        let pixel = P::default();
        let count = width * height;
        let mut pixels: Vec<P> = Vec::new();
        let mut k: usize = 0;
        while k < count
            invariant
                k <= count,
                pixels@.len() == k,
                forall|i: int| 0 <= i < k ==> pixels@[i] == pixel,
            decreases count - k,
        {
            pixels.push(pixel);
            k = k + 1;
        }
        GenericImage { width, height, pixels }
    }
}

impl<P: Copy> GenericImage<P> {
    pub fn width(&self) -> (res: usize)
        ensures
            res == self.width,
    {
        self.width
    }

    pub fn height(&self) -> (res: usize)
        ensures
            res == self.height,
    {
        self.height
    }

    /// The pixels, row after row.
    pub fn pixels(&self) -> (res: &[P])
        ensures
            res@ == self.pixels@,
    {
        self.pixels.as_slice()
    }

    pub fn size(&self) -> (res: Size)
        ensures
            res == (Size { width: self.width, height: self.height }),
    {
        Size { width: self.width, height: self.height }
    }

    /// The pixel in the given row and column.
    pub fn pixel(&self, row: usize, col: usize) -> (res: P)
        requires
            image_ok(*self),
            row < self.height,
            col < self.width,
        ensures
            res == self.pixels@[row * self.width + col],
    {
        proof {
            lemma_index_in_range(row as int, col as int, self.width as int, self.height as int);
            vstd::arithmetic::mul::lemma_mul_is_commutative(self.width as int, self.height as int);
            vstd::arithmetic::mul::lemma_mul_nonnegative(row as int, self.width as int);
            assert(row * self.width + col < self.pixels@.len());
        }
        let n = self.pixels.len();
        assert(row * self.width + col < n);
        self.pixels[row * self.width + col]
    }

    /// Replaces the pixel in the given row and column.
    pub fn set_pixel(&mut self, row: usize, col: usize, pixel: P)
        requires
            image_ok(*old(self)),
            row < old(self).height,
            col < old(self).width,
        ensures
            final(self).width == old(self).width,
            final(self).height == old(self).height,
            final(self).pixels@ == old(self).pixels@.update(row * old(self).width + col, pixel),
    {
        proof {
            lemma_index_in_range(row as int, col as int, self.width as int, self.height as int);
            vstd::arithmetic::mul::lemma_mul_is_commutative(self.width as int, self.height as int);
            vstd::arithmetic::mul::lemma_mul_nonnegative(row as int, self.width as int);
            assert(row * self.width + col < self.pixels@.len());
        }
        let n = self.pixels.len();
        assert(row * self.width + col < n);
        let index = row * self.width + col;
        self.pixels.set(index, pixel);
    }

    /// An image of the given pixels, `width` to a row; a short last row is dropped
    /// from the height.
    pub fn from_pixels(pixels: Vec<P>, width: usize) -> (res: GenericImage<P>)
        requires
            width > 0,
        ensures
            res.width == width,
            res.height == pixels@.len() as int / (width as int),
            res.pixels@ == pixels@,
    {
        let height = pixels.len() / width;
        GenericImage { width, height, pixels }
    }

    /// The part of the image from `start` of (at most) the given size; none where the
    /// size is empty or `start` lies outside the image.
    pub fn sub_image(&self, start: XY, size: Size) -> (res: Option<GenericImage<P>>)
        requires
            image_ok(*self),
            size.width * size.height <= usize::MAX,
        ensures
            res is Some <==> size.width * size.height > 0 && start.x < self.width && start.y
                < self.height,
            res matches Some(image) ==> ({
                let w = min_usize(size.width, (self.width - start.x) as usize);
                let h = min_usize(size.height, (self.height - start.y) as usize);
                &&& image.width == w
                &&& image.height == h
                &&& image_ok(image)
                &&& forall|r: int, c: int|
                    0 <= r < h && 0 <= c < w ==> #[trigger] image.pixels@[r * w + c]
                        == self.pixels@[(start.y + r) * self.width + start.x + c]
            }),
    {
        if size.area() > 0 && start.x < self.width && start.y < self.height {
            let width = if size.width < self.width - start.x {
                size.width
            } else {
                self.width - start.x
            };
            let height = if size.height < self.height - start.y {
                size.height
            } else {
                self.height - start.y
            };
            proof {
                if size.width == 0 {
                    vstd::arithmetic::mul::lemma_mul_basics(size.height as int);
                }
            }
            let end_row = start.y + height;
            let mut pixels: Vec<P> = Vec::new();
            let mut i: usize = start.y;
            while i < end_row
                invariant
                    image_ok(*self),
                    start.y <= i <= end_row,
                    end_row == start.y + height,
                    end_row <= self.height,
                    start.x + width <= self.width,
                    width > 0,
                    pixels@.len() == (i - start.y) * width,
                    forall|r: int, c: int|
                        0 <= r < i - start.y && 0 <= c < width ==> #[trigger] pixels@[r * width
                            + c] == self.pixels@[(start.y + r) * self.width + start.x + c],
                decreases end_row - i,
            {
                let ghost before = pixels@;
                let n = self.pixels.len();
                proof {
                    lemma_index_in_range(
                        i as int,
                        (start.x + width - 1) as int,
                        self.width as int,
                        self.height as int,
                    );
                    vstd::arithmetic::mul::lemma_mul_is_commutative(
                        self.width as int,
                        self.height as int,
                    );
                    vstd::arithmetic::mul::lemma_mul_nonnegative(i as int, self.width as int);
                    assert(i * self.width + start.x + width <= n);
                }
                let row_start = i * self.width;
                let mut j: usize = 0;
                while j < width
                    invariant
                        image_ok(*self),
                        start.y <= i < end_row,
                        end_row <= self.height,
                        start.x + width <= self.width,
                        row_start == i * self.width,
                        n == self.pixels@.len(),
                        row_start + start.x + width <= n,
                        j <= width,
                        before.len() == (i - start.y) * width,
                        pixels@.len() == before.len() + j,
                        forall|k: int| 0 <= k < before.len() ==> pixels@[k] == before[k],
                        forall|c: int|
                            0 <= c < j ==> #[trigger] pixels@[before.len() + c] == self.pixels@[i
                                * self.width + start.x + c],
                    decreases width - j,
                {
                    pixels.push(self.pixels[row_start + start.x + j]);
                    j = j + 1;
                }
                proof {
                    let rows = (i - start.y) as int;
                    assert((rows + 1) * width == rows * width + width) by (nonlinear_arith);
                    assert forall|r: int, c: int|
                        0 <= r < rows + 1 && 0 <= c < width implies #[trigger] pixels@[r * width
                        + c] == self.pixels@[(start.y + r) * self.width + start.x + c] by {
                        if r < rows {
                            lemma_index_in_range(r, c, width as int, rows);
                            assert(pixels@[r * width + c] == before[r * width + c]);
                        } else {
                            assert(r * width + c == before.len() + c);
                            assert(start.y + r == i);
                        }
                    }
                }
                i = i + 1;
            }
            proof {
                vstd::arithmetic::mul::lemma_mul_is_commutative(height as int, width as int);
            }
            Some(GenericImage { width, height, pixels })
        } else {
            None
        }
    }

    /// The image with each pixel changed by the transformer.
    pub fn transformed<T: Transformer<P>>(&self, transformer: T) -> (res: GenericImage<P>)
        ensures
            res.width == self.width,
            res.height == self.height,
            res.pixels@.len() == self.pixels@.len(),
            forall|i: int|
                0 <= i < self.pixels@.len() ==> #[trigger] res.pixels@[i] == transformer.transformed_pixel(
                    self.pixels@[i],
                ),
    {
        let mut pixels: Vec<P> = Vec::new();
        let mut k: usize = 0;
        while k < self.pixels.len()
            invariant
                k <= self.pixels@.len(),
                pixels@.len() == k,
                forall|i: int|
                    0 <= i < k ==> #[trigger] pixels@[i] == transformer.transformed_pixel(self.pixels@[i]),
            decreases self.pixels.len() - k,
        {
            pixels.push(transformer.transform(&self.pixels[k]));
            k = k + 1;
        }
        GenericImage { width: self.width, height: self.height, pixels }
    }
}

impl<P: Copy> From<(Size, Vec<P>)> for GenericImage<P> {
    fn from(data: (Size, Vec<P>)) -> (res: GenericImage<P>)
        ensures
            res == (GenericImage { width: data.0.width, height: data.0.height, pixels: data.1 }),
    {
        GenericImage { width: data.0.width, height: data.0.height, pixels: data.1 }
    }
}

impl<P: Copy> vstd::std_specs::convert::FromSpecImpl<(Size, Vec<P>)> for GenericImage<P> {
    open spec fn obeys_from_spec() -> bool {
        true
    }

    open spec fn from_spec(arg: (Size, Vec<P>)) -> GenericImage<P> {
        GenericImage { width: arg.0.width, height: arg.0.height, pixels: arg.1 }
    }
}

} // verus!
