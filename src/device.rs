use vstd::prelude::*;

verus! {

/// An exact fraction `num / den`.
#[derive(Clone, Copy, Debug, PartialEq, Eq, Structural)]
pub struct Ratio {
    pub num: i64,
    pub den: i64,
}

/// The matrix that takes device pixels (origin at the top left, y down) to
/// normalized device coordinates (origin at the centre, y up, [-1, 1] on
/// both axes). As a 3x3 matrix it is
///
/// ```text
/// | scale_x  0        offset_x |
/// | 0        scale_y  offset_y |
/// | 0        0        1        |
/// ```
#[derive(Clone, Copy, Debug, PartialEq, Eq, Structural)]
pub struct NdcMatrix {
    pub scale_x: Ratio,
    pub scale_y: Ratio,
    pub offset_x: Ratio,
    pub offset_y: Ratio,
}

/// Translate by (-width/2, height/2) after flipping y, then scale by
/// (2/width, 2/height): the entries that this composition comes to.
pub open spec fn ndc_matrix(width: u32, height: u32) -> NdcMatrix {
    NdcMatrix {
        scale_x: Ratio { num: 2, den: width as i64 },
        scale_y: Ratio { num: -2int as i64, den: height as i64 },
        offset_x: Ratio { num: -1int as i64, den: 1 },
        offset_y: Ratio { num: 1, den: 1 },
    }
}

impl NdcMatrix {
    /// The x coordinate that the matrix gives pixel column `x`, as a
    /// numerator and a denominator.
    pub open spec fn map_x(self, x: int) -> (int, int) {
        (
            self.scale_x.num * x * self.offset_x.den + self.offset_x.num * self.scale_x.den,
            self.scale_x.den * self.offset_x.den,
        )
    }

    /// The y coordinate that the matrix gives pixel row `y`, as a numerator
    /// and a denominator.
    pub open spec fn map_y(self, y: int) -> (int, int) {
        (
            self.scale_y.num * y * self.offset_y.den + self.offset_y.num * self.scale_y.den,
            self.scale_y.den * self.offset_y.den,
        )
    }
}

pub open spec fn same_fraction(a: (int, int), b: (int, int)) -> bool {
    a.0 * b.1 == b.0 * a.1
}

/// The device-to-NDC matrix for a framebuffer of `width` by `height` pixels.
/// A zero dimension gives a zero denominator on its axis.
pub fn render_matrix(width: u32, height: u32) -> (r: NdcMatrix)
    ensures
        r == ndc_matrix(width, height),
{
    NdcMatrix {
        scale_x: Ratio { num: 2, den: width as i64 },
        scale_y: Ratio { num: -2, den: height as i64 },
        offset_x: Ratio { num: -1, den: 1 },
        offset_y: Ratio { num: 1, den: 1 },
    }
}

/// The matrix is the composition that it stands for: pixel (x, y) goes to
/// x - width/2 and height/2 - y (translated, y flipped), then scaled by
/// 2/width and 2/height, that is to ((2x - width) / width, (height - 2y) /
/// height).
pub proof fn lemma_ndc_maps_pixels(width: u32, height: u32, x: int, y: int)
    requires
        width > 0,
        height > 0,
    ensures
        same_fraction(ndc_matrix(width, height).map_x(x), (2 * x - width, width as int)),
        same_fraction(ndc_matrix(width, height).map_y(y), (height - 2 * y, height as int)),
        ndc_matrix(width, height).map_x(x).1 != 0,
        ndc_matrix(width, height).map_y(y).1 != 0,
{
    let w = width as int;
    let h = height as int;
    assert((2 * x * 1 + (-1) * w) * w == (2 * x - w) * (w * 1)) by (nonlinear_arith);
    assert((-2 * y * 1 + 1 * h) * h == (h - 2 * y) * (h * 1)) by (nonlinear_arith);
}

/// The framebuffer's top-left corner goes to (-1, 1), its bottom-right corner
/// to (1, -1), and its centre to (0, 0).
pub proof fn lemma_ndc_corners(width: u32, height: u32)
    requires
        width > 0,
        height > 0,
    ensures
        same_fraction(ndc_matrix(width, height).map_x(0), (-1, 1)),
        same_fraction(ndc_matrix(width, height).map_y(0), (1, 1)),
        same_fraction(ndc_matrix(width, height).map_x(width as int), (1, 1)),
        same_fraction(ndc_matrix(width, height).map_y(height as int), (-1, 1)),
        width % 2 == 0 ==> ndc_matrix(width, height).map_x((width / 2) as int).0 == 0,
        height % 2 == 0 ==> ndc_matrix(width, height).map_y((height / 2) as int).0 == 0,
{
    let w = width as int;
    let h = height as int;
    assert(width % 2 == 0 ==> 2 * (width / 2) == w);
    assert(height % 2 == 0 ==> 2 * (height / 2) == h);
    assert((2 * w * 1 + (-1) * w) * 1 == 1 * (w * 1)) by (nonlinear_arith);
    assert((-2 * h * 1 + 1 * h) * 1 == (-1) * (h * 1)) by (nonlinear_arith);
}

} // verus!
