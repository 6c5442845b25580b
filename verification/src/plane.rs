//! Where the pixels of an image lie on the image plane of a pinhole camera.
//!
//! The plane is one unit wide and centred on the optical axis. Column 0 lies
//! at abscissa `1/2` and the last column at `-1/2`; row 0 lies at ordinate
//! `h/2` and the last row at `-h/2`, where `h = height / width` is the aspect
//! of the image. Coordinates are exact fractions.

use vstd::prelude::*;
use crate::image::ImageSize;

verus! {

/// A fraction of mathematical integers: the model of [`Ratio`].
pub ghost struct Fraction {
    pub num: int,
    pub den: int,
}

impl Fraction {
    /// Whether the two fractions, both with a positive denominator, stand
    /// for the same number.
    pub open spec fn same_value(self, other: Fraction) -> bool {
        self.num * other.den == other.num * self.den
    }

    /// Whether `self` stands for a smaller number than `other`, both with a
    /// positive denominator.
    pub open spec fn below(self, other: Fraction) -> bool {
        self.num * other.den < other.num * self.den
    }

    /// The opposite number.
    pub open spec fn opposite(self) -> Fraction {
        Fraction { num: -self.num, den: self.den }
    }
}

/// The exact fraction `num / den`.
#[derive(Clone, Copy, Debug, PartialEq, Eq, Structural)]
pub struct Ratio {
    pub num: i128,
    pub den: i128,
}

impl View for Ratio {
    type V = Fraction;

    open spec fn view(&self) -> Fraction {
        Fraction { num: self.num as int, den: self.den as int }
    }
}

/// Abscissa of column `col`: `1/2 - col / (width - 1)`.
pub open spec fn abscissa(size: ImageSize, col: int) -> Fraction {
    Fraction { num: (size.width - 1) - 2 * col, den: 2 * (size.width - 1) }
}

/// Ordinate of row `row`: `h/2 - h * row / (height - 1)`, with
/// `h = height / width`.
pub open spec fn ordinate(size: ImageSize, row: int) -> Fraction {
    Fraction {
        num: size.height * ((size.height - 1) - 2 * row),
        den: 2 * size.width * (size.height - 1),
    }
}

/// Abscissa on the image plane of the pixels in column `col`.
pub fn plane_x(size: &ImageSize, col: u32) -> (x: Ratio)
    requires
        size.is_samplable(),
    ensures
        x@ == abscissa(*size, col as int),
        x.den > 0,
{
    let steps: i128 = size.width as i128 - 1;
    Ratio { num: steps - 2 * (col as i128), den: 2 * steps }
}

/// Ordinate on the image plane of the pixels in row `row`.
pub fn plane_y(size: &ImageSize, row: u32) -> (y: Ratio)
    requires
        size.is_samplable(),
    ensures
        y@ == ordinate(*size, row as int),
        y.den > 0,
{
    let steps: i128 = size.height as i128 - 1;
    let offset: i128 = steps - 2 * (row as i128);
    let height: i128 = size.height as i128;
    let width: i128 = size.width as i128;
    assert(-0x4_0000_0000_0000_0000 <= height * offset <= 0x4_0000_0000_0000_0000
        && 0 < 2 * width * steps <= 0x4_0000_0000_0000_0000) by (nonlinear_arith)
        requires
            2 <= height <= 0xffff_ffff,
            2 <= width <= 0xffff_ffff,
            steps == height - 1,
            -0x2_0000_0000 <= offset <= 0x2_0000_0000,
    ;
    Ratio { num: height * offset, den: 2 * width * steps }
}

/// The columns are spread evenly from `1/2` down to `-1/2`: the first
/// column lies at `1/2`, the last at `-1/2`, each column lies below the one
/// before it, and columns at the same distance from the two edges lie
/// opposite each other.
pub proof fn lemma_abscissa_spread(size: ImageSize, col: int)
    requires
        size.is_samplable(),
        0 <= col < size.width,
    ensures
        abscissa(size, 0).same_value(Fraction { num: 1, den: 2 }),
        abscissa(size, size.width - 1).same_value(Fraction { num: -1, den: 2 }),
        col > 0 ==> abscissa(size, col).below(abscissa(size, col - 1)),
        abscissa(size, size.width - 1 - col) == abscissa(size, col).opposite(),
{
    let d = 2 * (size.width - 1);
    let a = (size.width - 1) - 2 * col;
    assert(a * d < (a + 2) * d) by (nonlinear_arith)
        requires
            d > 0,
    ;
}

/// The rows are spread evenly from `h/2` down to `-h/2`, with
/// `h = height / width`: the first row lies at `height / (2 * width)`, the
/// last at the opposite, each row lies below the one before it, and rows at
/// the same distance from the two edges lie opposite each other.
pub proof fn lemma_ordinate_spread(size: ImageSize, row: int)
    requires
        size.is_samplable(),
        0 <= row < size.height,
    ensures
        ordinate(size, 0).same_value(Fraction { num: size.height as int, den: 2 * size.width }),
        ordinate(size, size.height - 1).same_value(
            Fraction { num: -size.height, den: 2 * size.width },
        ),
        row > 0 ==> ordinate(size, row).below(ordinate(size, row - 1)),
        ordinate(size, size.height - 1 - row) == ordinate(size, row).opposite(),
{
    let h = size.height as int;
    let w = size.width as int;
    let s = h - 1;
    let d = 2 * w * s;
    let a = s - 2 * row;
    assert(d > 0) by (nonlinear_arith)
        requires
            w >= 2,
            s >= 1,
            d == 2 * w * s,
    ;
    assert((h * s) * (2 * w) == h * d && (h * (s - 2 * s)) * (2 * w) == (-h) * d)
        by (nonlinear_arith)
        requires
            d == 2 * w * s,
    ;
    assert(h * (s - 2 * (s - row)) == -(h * a)) by (nonlinear_arith)
        requires
            a == s - 2 * row,
    ;
    assert((h * a) * d < (h * (a + 2)) * d) by (nonlinear_arith)
        requires
            d > 0,
            h > 0,
    ;
}

} // verus!
