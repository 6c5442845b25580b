//! The order in which the pixels of an image are visited.
//!
//! Pixels are visited row by row, from row 0, and within a row from column
//! 0 upwards: the pixel visited at step `n` is in column `n % width` of row
//! `n / width`.

use vstd::prelude::*;
use vstd::arithmetic::div_mod::{
    lemma_fundamental_div_mod, lemma_fundamental_div_mod_converse, lemma_mod_bound,
    lemma_multiply_divide_lt,
};
use crate::image::ImageSize;

verus! {

/// The pixels `(column, row)` of an image in the order they are visited.
pub open spec fn pixel_sequence(size: ImageSize) -> Seq<(u32, u32)> {
    Seq::new(
        size.count(),
        |n: int| ((n % size.width as int) as u32, (n / size.width as int) as u32),
    )
}

/// Walks over the pixels of an image in row-major order, one pixel a step.
pub struct Sampler {
    size: ImageSize,
    x: u32,
    y: u32,
}

impl Sampler {
    #[verifier::type_invariant]
    spec fn well_formed(self) -> bool {
        &&& self.y <= self.size.height
        &&& self.x == 0 || self.x < self.size.width
        &&& self.y == self.size.height ==> self.x == 0
    }

    /// The size of the image that is walked over.
    pub closed spec fn size(self) -> ImageSize {
        self.size
    }

    /// The number of pixels visited so far.
    pub closed spec fn position(self) -> nat {
        if self.size.width == 0 {
            0
        } else {
            (self.y * self.size.width + self.x) as nat
        }
    }

    /// The pixels still to be visited, in order.
    pub open spec fn remaining(self) -> Seq<(u32, u32)> {
        pixel_sequence(self.size()).skip(self.position() as int)
    }

    /// A sampler at the first pixel of an image of the given size.
    pub fn new(size: &ImageSize) -> (s: Sampler)
        ensures
            s.size() == *size,
            s.position() == 0,
            s.remaining() == pixel_sequence(*size),
    {
        Sampler { size: *size, x: 0, y: 0 }
    }

    /// The next pixel `(column, row)`, or `None` once every pixel has been
    /// visited.
    pub fn next(&mut self) -> (r: Option<(u32, u32)>)
        ensures
            final(self).size() == old(self).size(),
            old(self).position() <= old(self).size().count(),
            old(self).position() < old(self).size().count() ==> {
                &&& r == Some(pixel_sequence(old(self).size())[old(self).position() as int])
                &&& final(self).position() == old(self).position() + 1
            },
            old(self).position() == old(self).size().count() ==> {
                &&& r is None
                &&& final(self).position() == old(self).position()
            },
    {
        proof {
            use_type_invariant(&*self);
            lemma_position(self.size, self.x, self.y);
        }
        if self.size.width == 0 || self.y >= self.size.height {
            return None;
        }
        let pixel = (self.x, self.y);
        if self.x == self.size.width - 1 {
            assert((self.y + 1) * self.size.width == self.y * self.size.width + self.size.width)
                by (nonlinear_arith);
            self.x = 0;
            self.y = self.y + 1;
        } else {
            self.x = self.x + 1;
        }
        Some(pixel)
    }

    /// Visits every remaining pixel and returns them in the order visited.
    pub fn collect(self) -> (v: Vec<(u32, u32)>)
        ensures
            v@ == self.remaining(),
    {
        proof {
            use_type_invariant(&self);
            lemma_position(self.size, self.x, self.y);
        }
        let ghost start = self.position() as int;
        let ghost all = pixel_sequence(self.size());
        let mut s = self;
        let mut v: Vec<(u32, u32)> = Vec::new();
        loop
            invariant
                s.size() == self.size(),
                all == pixel_sequence(self.size()),
                start == self.position(),
                start <= s.position() as int,
                v@ == all.subrange(start, s.position() as int),
            ensures
                s.position() == self.size().count(),
            decreases self.size().count() - s.position(),
        {
            match s.next() {
                None => {
                    break ;
                },
                Some(p) => {
                    v.push(p);
                },
            }
        }
        assert(v@ == all.skip(start));
        v
    }
}

/// The sequence holds one pixel for each step, and the pixel at step `n`
/// lies inside the image, in column `n % width` of row `n / width`.
pub proof fn lemma_pixel_sequence_in_image(size: ImageSize, n: int)
    requires
        0 <= n < size.count(),
    ensures
        pixel_sequence(size).len() == size.count(),
        pixel_sequence(size)[n].0 < size.width,
        pixel_sequence(size)[n].1 < size.height,
        n == pixel_sequence(size)[n].1 * size.width + pixel_sequence(size)[n].0,
{
    let w = size.width as int;
    let h = size.height as int;
    assert(w > 0) by (nonlinear_arith)
        requires
            0 <= n < w * h,
            0 <= w,
    ;
    lemma_fundamental_div_mod(n, w);
    lemma_mod_bound(n, w);
    assert(w * h == h * w) by (nonlinear_arith);
    lemma_multiply_divide_lt(n, w, h);
    assert(0 <= n / w) by (nonlinear_arith)
        requires
            n == w * (n / w) + n % w,
            0 <= n,
            0 <= n % w < w,
    ;
    assert(w * (n / w) == (n / w) * w) by (nonlinear_arith);
}

/// Row-major order: the pixel in column `col` of row `row` is visited at
/// step `row * width + col`, so every pixel of the image is visited.
pub proof fn lemma_pixel_sequence_row_major(size: ImageSize, col: u32, row: u32)
    requires
        col < size.width,
        row < size.height,
    ensures
        0 <= row * size.width + col < size.count(),
        pixel_sequence(size)[row * size.width + col] == (col, row),
{
    lemma_position(size, col, row);
}

/// No pixel is visited twice.
pub proof fn lemma_pixel_sequence_distinct(size: ImageSize, m: int, n: int)
    requires
        0 <= m < size.count(),
        0 <= n < size.count(),
        m != n,
    ensures
        pixel_sequence(size)[m] != pixel_sequence(size)[n],
{
    lemma_pixel_sequence_in_image(size, m);
    lemma_pixel_sequence_in_image(size, n);
}

/// Pixels are visited in the order of their rows, and within a row in the
/// order of their columns.
pub proof fn lemma_pixel_sequence_ordered(size: ImageSize, m: int, n: int)
    requires
        0 <= m < n < size.count(),
    ensures
        ({
            let a = pixel_sequence(size)[m];
            let b = pixel_sequence(size)[n];
            a.1 < b.1 || (a.1 == b.1 && a.0 < b.0)
        }),
{
    lemma_pixel_sequence_in_image(size, m);
    lemma_pixel_sequence_in_image(size, n);
    let a = pixel_sequence(size)[m];
    let b = pixel_sequence(size)[n];
    let w = size.width as int;
    if a.1 > b.1 {
        assert(a.1 * w >= b.1 * w + w) by (nonlinear_arith)
            requires
                a.1 >= b.1 + 1,
                0 <= w,
        ;
    }
}

/// Where a sampler of an image of `size` stands, in the order of visit,
/// when its next pixel is in column `x` of row `y`.
proof fn lemma_position(size: ImageSize, x: u32, y: u32)
    requires
        y <= size.height,
        x == 0 || x < size.width,
        y == size.height ==> x == 0,
    ensures
        ({
            let at = if size.width == 0 {
                0
            } else {
                y * size.width + x
            };
            &&& 0 <= at <= size.count()
            &&& size.width > 0 && y < size.height ==> {
                &&& at < size.count()
                &&& pixel_sequence(size)[at] == (x, y)
            }
            &&& size.width == 0 || y == size.height ==> at == size.count()
        }),
{
    let w = size.width as int;
    let h = size.height as int;
    if w == 0 {
        assert(w * h == 0) by (nonlinear_arith)
            requires
                w == 0,
        ;
    } else if y < h {
        assert(0 <= y * w && y * w + w <= w * h) by (nonlinear_arith)
            requires
                0 <= y,
                y + 1 <= h,
                0 < w,
        ;
        lemma_fundamental_div_mod_converse(y * w + x, w, y as int, x as int);
    } else {
        assert(y * w == w * h) by (nonlinear_arith)
            requires
                y == h,
        ;
    }
}

} // verus!
