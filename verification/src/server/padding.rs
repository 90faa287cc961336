//! Pictures that are padded to whole macroblocks.

use crate::server::egfx_sender::least;
use vstd::arithmetic::div_mod::lemma_fundamental_div_mod_converse;
use vstd::prelude::*;

verus! {

/// The next multiple of sixteen.
pub open spec fn aligned(n: int) -> int {
    (n + 15) / 16 * 16
}

/// The next multiple of sixteen.
pub fn align_to_16(n: u32) -> (r: u32)
    requires
        n <= u32::MAX - 15,
    ensures
        r == aligned(n as int),
        n <= r < n + 16,
        r % 16 == 0,
{
    (n + 15) / 16 * 16
}

/// A picture's size, before and after it is padded.
pub struct Padding {
    pub width: int,
    pub height: int,
    pub aligned_width: int,
    pub aligned_height: int,
}

impl Padding {
    /// The pixel that a pixel of the padded picture repeats: itself, or else the nearest one
    /// of the picture.
    pub open spec fn source_pixel(self, x: int, y: int) -> int {
        least(y, self.height - 1) * self.width + least(x, self.width - 1)
    }

    /// The byte that a byte of the padded picture repeats.
    pub open spec fn source(self, i: int) -> int {
        self.source_pixel(i / 4 % self.aligned_width, i / 4 / self.aligned_width) * 4 + i % 4
    }

    /// The padded picture.
    pub open spec fn padded(self, data: Seq<u8>) -> Seq<u8> {
        Seq::new(
            (self.aligned_width * self.aligned_height * 4) as nat,
            |i: int| data[self.source(i)],
        )
    }
}

/// The picture with its last column and its last row repeated up to the aligned size.
pub fn pad_frame_to_aligned(
    data: &Vec<u8>,
    width: u32,
    height: u32,
    aligned_width: u32,
    aligned_height: u32,
) -> (r: Vec<u8>)
    requires
        width <= aligned_width,
        height <= aligned_height,
        width < aligned_width && height > 0 ==> width > 0,
        height < aligned_height ==> height > 0,
        data@.len() >= width * height * 4,
        aligned_width * aligned_height * 4 <= u32::MAX,
    ensures
        r@ == (Padding {
            width: width as int,
            height: height as int,
            aligned_width: aligned_width as int,
            aligned_height: aligned_height as int,
        }).padded(data@),
{
    let ghost sizes = Padding {
        width: width as int,
        height: height as int,
        aligned_width: aligned_width as int,
        aligned_height: aligned_height as int,
    };
    let n: usize = data.len();
    let w: usize = width as usize;
    let aw: usize = aligned_width as usize;
    let mut r: Vec<u8> = Vec::new();
    let mut y: u32 = 0;
    assert(0 * aw == 0) by (nonlinear_arith);
    while y < aligned_height
        invariant
            n == data@.len(),
            w == width,
            aw == aligned_width,
            y <= aligned_height,
            width <= aligned_width,
            height <= aligned_height,
            width < aligned_width && height > 0 ==> width > 0,
            height < aligned_height ==> height > 0,
            n >= width * height * 4,
            sizes.width == width,
            sizes.height == height,
            sizes.aligned_width == aligned_width,
            sizes.aligned_height == aligned_height,
            r@.len() == y * aw * 4,
            forall|i: int| 0 <= i < r@.len() ==> #[trigger] r@[i] == data@[sizes.source(i)],
        decreases aligned_height - y,
    {
        let row: usize = if y < height {
            y as usize
        } else {
            (height - 1) as usize
        };
        let mut x: u32 = 0;
        assert((y * aw + 0) * 4 == y * aw * 4) by (nonlinear_arith);
        while x < aligned_width
            invariant
                n == data@.len(),
                w == width,
                aw == aligned_width,
                y < aligned_height,
                x <= aligned_width,
                width <= aligned_width,
                height <= aligned_height,
                width < aligned_width ==> width > 0,
                n >= width * height * 4,
                sizes.width == width,
                sizes.height == height,
                sizes.aligned_width == aligned_width,
                row == least(y as int, height - 1),
                row < height,
                r@.len() == (y * aw + x) * 4,
                forall|i: int| 0 <= i < r@.len() ==> #[trigger] r@[i] == data@[sizes.source(i)],
            decreases aligned_width - x,
        {
            let column: usize = if x < width {
                x as usize
            } else {
                (width - 1) as usize
            };
            proof {
                lemma_source_fits(row as int, column as int, width as int, height as int);
                lemma_pixel_of(sizes, x as int, y as int);
            }
            let from: usize = (row * w + column) * 4;
            let ghost start = r@.len() as int;
            let ghost before = r@;
            r.push(data[from]);
            r.push(data[from + 1]);
            r.push(data[from + 2]);
            r.push(data[from + 3]);
            assert forall|i: int| 0 <= i < r@.len() implies #[trigger] r@[i]
                == data@[sizes.source(i)] by {
                if i >= start {
                    let k = i - start;
                    assert(i == start || i == start + 1 || i == start + 2 || i == start + 3);
                    assert(sizes.source((y * sizes.aligned_width + x) * 4 + k)
                        == sizes.source_pixel(x as int, y as int) * 4 + k);
                    assert((y * sizes.aligned_width + x) * 4 + k == i);
                } else {
                    assert(r@[i] == before[i]);
                }
            }
            assert((y * aw + (x + 1)) * 4 == (y * aw + x) * 4 + 4) by (nonlinear_arith);
            x = x + 1;
        }
        assert((y * aw + aw) * 4 == (y + 1) * aw * 4) by (nonlinear_arith);
        y = y + 1;
    }
    assert(aligned_height * aw * 4 == aligned_width * aligned_height * 4) by (nonlinear_arith)
        requires
            aw == aligned_width,
    ;
    assert(r@ =~= sizes.padded(data@));
    r
}

proof fn lemma_source_fits(row: int, column: int, width: int, height: int)
    requires
        0 <= row < height,
        0 <= column < width,
    ensures
        0 <= row * width,
        0 <= row * width + column,
        (row * width + column) * 4 + 4 <= width * height * 4,
{
    assert(0 <= row * width && row * width + width <= width * height) by (nonlinear_arith)
        requires
            0 <= row,
            row + 1 <= height,
            0 <= width,
    ;
}

proof fn lemma_pixel_of(sizes: Padding, x: int, y: int)
    requires
        0 <= x < sizes.aligned_width,
        0 <= y,
    ensures
        forall|k: int|
            0 <= k < 4 ==> #[trigger] sizes.source((y * sizes.aligned_width + x) * 4 + k)
                == sizes.source_pixel(x, y) * 4 + k,
{
    let p = y * sizes.aligned_width + x;
    lemma_fundamental_div_mod_converse(p, sizes.aligned_width, y, x);
    assert forall|k: int| 0 <= k < 4 implies #[trigger] sizes.source(p * 4 + k)
        == sizes.source_pixel(x, y) * 4 + k by {
        lemma_fundamental_div_mod_converse(p * 4 + k, 4, p, k);
    }
}

/// A pixel of the padded picture is the pixel of the picture that is nearest to it: inside
/// the picture it is itself, outside it repeats the edge.
pub proof fn padding_repeats_edges(sizes: Padding, data: Seq<u8>, x: int, y: int, k: int)
    requires
        0 <= x < sizes.aligned_width,
        0 <= y < sizes.aligned_height,
        0 <= k < 4,
    ensures
        sizes.padded(data)[(y * sizes.aligned_width + x) * 4 + k] == data[(least(
            y,
            sizes.height - 1,
        ) * sizes.width + least(x, sizes.width - 1)) * 4 + k],
{
    lemma_pixel_of(sizes, x, y);
    lemma_source_fits(y, x, sizes.aligned_width, sizes.aligned_height);
}

/// Sizes are filled up to the next multiple of sixteen and no further; one that is a multiple
/// already stays.
pub proof fn sizes_are_filled_up_to_sixteen(n: int)
    requires
        n >= 0,
    ensures
        aligned(n) % 16 == 0,
        n <= aligned(n) < n + 16,
        n % 16 == 0 ==> aligned(n) == n,
{
}

/// Padding leaves the picture as it is: a pixel of it stays where it was, in its own row and
/// column.
pub proof fn padding_keeps_the_picture(sizes: Padding, data: Seq<u8>, x: int, y: int, k: int)
    requires
        0 <= x < sizes.width <= sizes.aligned_width,
        0 <= y < sizes.height <= sizes.aligned_height,
        0 <= k < 4,
    ensures
        sizes.padded(data).len() == sizes.aligned_width * sizes.aligned_height * 4,
        sizes.padded(data)[(y * sizes.aligned_width + x) * 4 + k] == data[(y * sizes.width + x) * 4
            + k],
{
    padding_repeats_edges(sizes, data, x, y, k);
    assert(0 <= sizes.aligned_width * sizes.aligned_height * 4) by (nonlinear_arith)
        requires
            0 <= sizes.aligned_width,
            0 <= sizes.aligned_height,
    ;
}

/// Below the picture its last row is repeated, and to the right of it its last column.
pub proof fn padding_repeats_the_last_row_and_column(
    sizes: Padding,
    data: Seq<u8>,
    x: int,
    y: int,
    k: int,
)
    requires
        0 <= x < sizes.aligned_width,
        0 <= y < sizes.aligned_height,
        0 <= k < 4,
    ensures
        x >= sizes.width && y < sizes.height ==> sizes.padded(data)[(y * sizes.aligned_width + x)
            * 4 + k] == data[(y * sizes.width + (sizes.width - 1)) * 4 + k],
        x < sizes.width && y >= sizes.height ==> sizes.padded(data)[(y * sizes.aligned_width + x)
            * 4 + k] == data[((sizes.height - 1) * sizes.width + x) * 4 + k],
        x >= sizes.width && y >= sizes.height ==> sizes.padded(data)[(y * sizes.aligned_width + x)
            * 4 + k] == data[((sizes.height - 1) * sizes.width + (sizes.width - 1)) * 4 + k],
{
    padding_repeats_edges(sizes, data, x, y, k);
}

/// A padded picture has four bytes for each pixel of the aligned size.
pub proof fn padded_pictures_are_filled(sizes: Padding, data: Seq<u8>)
    requires
        sizes.aligned_width >= 0,
        sizes.aligned_height >= 0,
    ensures
        sizes.padded(data).len() == sizes.aligned_width * sizes.aligned_height * 4,
{
    assert(sizes.aligned_width * sizes.aligned_height * 4 >= 0) by (nonlinear_arith)
        requires
            sizes.aligned_width >= 0,
            sizes.aligned_height >= 0,
    ;
}

} // verus!
