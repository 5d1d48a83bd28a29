use vstd::prelude::*;

verus! {

/// An RGBA color whose four channels are exact fractions over one shared
/// denominator: red is `r / den`, and so on.
#[derive(Clone, Copy, Debug, PartialEq, Eq, Structural)]
pub struct Color {
    pub r: u128,
    pub g: u128,
    pub b: u128,
    pub a: u128,
    pub den: u128,
}

/// `num / den == p / q`, stated without division.
pub open spec fn ratio_is(num: int, den: int, p: int, q: int) -> bool {
    num * q == p * den
}

impl Color {
    /// A usable color has a positive denominator and no channel above one.
    pub open spec fn wf(self) -> bool {
        &&& self.den > 0
        &&& self.r <= self.den
        &&& self.g <= self.den
        &&& self.b <= self.den
        &&& self.a <= self.den
    }

    /// The channels as fractions: each pair is a numerator and a denominator.
    pub open spec fn denotes(self, r: (int, int), g: (int, int), b: (int, int), a: (int, int)) -> bool {
        &&& ratio_is(self.r as int, self.den as int, r.0, r.1)
        &&& ratio_is(self.g as int, self.den as int, g.0, g.1)
        &&& ratio_is(self.b as int, self.den as int, b.0, b.1)
        &&& ratio_is(self.a as int, self.den as int, a.0, a.1)
    }

    /// The opaque color with whole channels `r`, `g` and `b`.
    pub open spec fn opaque_rgb(r: u128, g: u128, b: u128) -> Color {
        Color { r, g, b, a: 1, den: 1 }
    }

    /// The gradient color for a pointer at pixel `(px, py)` of a `w` by `h`
    /// surface: with `x = px / w` and `y = py / h` it is
    /// `(x, y, 1 - (x + y) / 2, 1)`, written over the denominator `2 * w * h`.
    pub open spec fn gradient_spec(px: int, py: int, w: int, h: int) -> Color {
        Color {
            r: (2 * px * h) as u128,
            g: (2 * py * w) as u128,
            b: (2 * w * h - px * h - py * w) as u128,
            a: (2 * w * h) as u128,
            den: (2 * w * h) as u128,
        }
    }

    /// The color a fresh state clears to: (0.1, 0.2, 0.3, 1).
    pub fn initial() -> (c: Color)
        ensures
            c == (Color { r: 1, g: 2, b: 3, a: 10, den: 10 }),
            c.wf(),
    {
        Color { r: 1, g: 2, b: 3, a: 10, den: 10 }
    }

    pub fn blue() -> (c: Color)
        ensures
            c == Color::opaque_rgb(0, 0, 1),
    {
        Color { r: 0, g: 0, b: 1, a: 1, den: 1 }
    }

    pub fn green() -> (c: Color)
        ensures
            c == Color::opaque_rgb(0, 1, 0),
    {
        Color { r: 0, g: 1, b: 0, a: 1, den: 1 }
    }

    pub fn red() -> (c: Color)
        ensures
            c == Color::opaque_rgb(1, 0, 0),
    {
        Color { r: 1, g: 0, b: 0, a: 1, den: 1 }
    }

    pub fn black() -> (c: Color)
        ensures
            c == Color::opaque_rgb(0, 0, 0),
    {
        Color { r: 0, g: 0, b: 0, a: 1, den: 1 }
    }

    /// The gradient color of a pointer that lies on the surface.
    pub fn gradient(px: u32, py: u32, w: u32, h: u32) -> (c: Color)
        requires
            px < w,
            py < h,
        ensures
            c == Color::gradient_spec(px as int, py as int, w as int, h as int),
            c.wf(),
            c.denotes((px as int, w as int), (py as int, h as int),
                (2 * w * h - px * h - py * w, 2 * w * h), (1, 1)),
    {
        let w2: u128 = w as u128;
        let h2: u128 = h as u128;
        let x: u128 = px as u128;
        let y: u128 = py as u128;
        assert(x * h2 < w2 * h2) by (nonlinear_arith)
            requires x < w2, h2 > 0;
        assert(y * w2 < w2 * h2) by (nonlinear_arith)
            requires y < h2, w2 > 0;
        assert(w2 * h2 <= 0xffff_ffffu128 * 0xffff_ffffu128) by (nonlinear_arith)
            requires w2 <= 0xffff_ffffu128, h2 <= 0xffff_ffffu128;
        let wh: u128 = w2 * h2;
        let xh: u128 = x * h2;
        let yw: u128 = y * w2;
        let den: u128 = 2 * wh;
        assert(2 * xh == 2 * x * h2 && 2 * yw == 2 * y * w2 && den == 2 * w2 * h2)
            by (nonlinear_arith)
            requires xh == x * h2, yw == y * w2, den == 2 * (w2 * h2);
        let c = Color {
            r: 2 * xh,
            g: 2 * yw,
            b: den - xh - yw,
            a: den,
            den,
        };
        assert(c.denotes((px as int, w as int), (py as int, h as int),
            (2 * w * h - px * h - py * w, 2 * w * h), (1, 1))) by (nonlinear_arith)
            requires
                c.r == 2 * (x * h2),
                c.g == 2 * (y * w2),
                c.a == den,
                c.den == den,
                den == 2 * (w2 * h2),
                c.b == den - (x * h2) - (y * w2),
                x == px, y == py, w2 == w, h2 == h;
        c
    }
}

} // verus!
