//! Points, sizes, rectangles, and the affine map between widget space and
//! layout space.
//!
//! Lengths are integers. A scale factor is an exact fraction, so the choice
//! between stretching and uniform scaling never depends on rounding; only
//! the final mapping of a coordinate rounds, always toward negative
//! infinity.

use vstd::prelude::*;
use vstd::arithmetic::div_mod::lemma_fundamental_div_mod_converse_div;

verus! {

/// The greatest extent that a layout stores, and the greatest offset from
/// an origin.
pub const MAX_EXTENT: i64 = 0x100_0000_0000;

/// Whether `v` can be the extent of something in a layout, or its offset
/// from the origin of what holds it: it is not negative and not greater
/// than `MAX_EXTENT`.
pub open spec fn in_extent(v: int) -> bool {
    0 <= v <= MAX_EXTENT
}

/// Whether `v` is a value of `i64`.
pub open spec fn fits_i64(v: int) -> bool {
    i64::MIN <= v <= i64::MAX
}

/// Quotient of `a` by the positive `b`, rounded toward negative infinity.
pub fn div_floor(a: i128, b: i128) -> (q: i128)
    requires
        b > 0,
        a > i128::MIN,
    ensures
        q == a / b,
        a >= 0 ==> 0 <= q <= a,
        a < 0 ==> a <= q < 0,
{
    if a >= 0 {
        proof {
            vstd::arithmetic::div_mod::lemma_div_pos_is_pos(a as int, b as int);
            vstd::arithmetic::div_mod::lemma_div_nonincreasing(a as int, b as int);
        }
        a / b
    } else {
        let n: i128 = -a;
        let below: i128 = (n - 1) / b;
        let q: i128 = -below - 1;
        proof {
            vstd::arithmetic::div_mod::lemma_div_pos_is_pos(n - 1, b as int);
            vstd::arithmetic::div_mod::lemma_div_nonincreasing(n - 1, b as int);
            let r: int = b - 1 - ((n - 1) % (b as int));
            assert(n - 1 == b * ((n - 1) / (b as int)) + (n - 1) % (b as int)) by {
                vstd::arithmetic::div_mod::lemma_fundamental_div_mod(n - 1, b as int);
            }
            assert(0 <= (n - 1) % (b as int) < b) by {
                vstd::arithmetic::div_mod::lemma_mod_bound(n - 1, b as int);
            }
            assert(a == q * b + r) by (nonlinear_arith)
                requires
                    a == -n,
                    q == -below - 1,
                    r == b - 1 - ((n - 1) % (b as int)),
                    n - 1 == b * below + (n - 1) % (b as int),
            ;
            lemma_fundamental_div_mod_converse_div(a as int, b as int, q as int, r);
        }
        q
    }
}

/// A position, or a displacement between two positions.
#[derive(Clone, Copy, Debug, PartialEq, Eq, Structural)]
pub struct Point {
    pub x: i64,
    pub y: i64,
}

impl Point {
    /// Neither coordinate is further from zero than `MAX_EXTENT`.
    pub open spec fn wf(&self) -> bool {
        &&& -MAX_EXTENT <= self.x <= MAX_EXTENT
        &&& -MAX_EXTENT <= self.y <= MAX_EXTENT
    }

    /// This point displaced by `other`.
    pub fn add(self, other: Point) -> (sum: Point)
        requires
            fits_i64(self.x + other.x),
            fits_i64(self.y + other.y),
        ensures
            sum.x == self.x + other.x,
            sum.y == self.y + other.y,
    {
        Point { x: self.x + other.x, y: self.y + other.y }
    }

    /// The displacement that leads from `other` to this point.
    pub fn sub(self, other: &Point) -> (diff: Point)
        requires
            fits_i64(self.x - other.x),
            fits_i64(self.y - other.y),
        ensures
            diff.x == self.x - other.x,
            diff.y == self.y - other.y,
    {
        Point { x: self.x - other.x, y: self.y - other.y }
    }
}

/// A width and a height.
#[derive(Clone, Copy, Debug, PartialEq, Eq, Structural)]
pub struct Size {
    pub width: i64,
    pub height: i64,
}

impl Size {
    /// Neither extent is negative or greater than `MAX_EXTENT`.
    pub open spec fn wf(&self) -> bool {
        in_extent(self.width as int) && in_extent(self.height as int)
    }
}

/// An axis-aligned rectangle.
#[derive(Clone, Copy, Debug, PartialEq, Eq, Structural)]
pub struct Bounds {
    pub x: i64,
    pub y: i64,
    pub width: i64,
    pub height: i64,
}

impl Bounds {
    /// Whether `point` lies strictly inside the rectangle. The edges are
    /// outside.
    pub open spec fn spec_contains(&self, point: Point) -> bool {
        &&& self.x < point.x < self.x + self.width
        &&& self.y < point.y < self.y + self.height
    }

    /// Tells whether `point` lies strictly inside the rectangle.
    pub fn contains(&self, point: &Point) -> (inside: bool)
        ensures
            inside == self.spec_contains(*point),
    {
        point.x > self.x && (point.x as i128) < (self.x as i128) + (self.width as i128)
            && point.y > self.y && (point.y as i128) < (self.y as i128) + (self.height as i128)
    }
}

/// The product of two numbers of which each is at most `2^64` in
/// magnitude, one of them less.
proof fn lemma_product_fits(a: int, b: int)
    requires
        -0xffff_ffff_ffff_ffff <= a <= 0xffff_ffff_ffff_ffff,
        -0x8000_0000_0000_0000 <= b <= 0x7fff_ffff_ffff_ffff,
    ensures
        -0x7fff_ffff_ffff_ffff_ffff_ffff_ffff_ffff < a * b
            <= 0x7fff_ffff_ffff_ffff_ffff_ffff_ffff_ffff,
        -0x7fff_ffff_ffff_ffff_ffff_ffff_ffff_ffff < b * a
            <= 0x7fff_ffff_ffff_ffff_ffff_ffff_ffff_ffff,
{
    assert(a * b <= 0xffff_ffff_ffff_ffff * 0x8000_0000_0000_0000 && a * b >= -(
    0xffff_ffff_ffff_ffff * 0x8000_0000_0000_0000)) by (nonlinear_arith)
        requires
            -0xffff_ffff_ffff_ffff <= a <= 0xffff_ffff_ffff_ffff,
            -0x8000_0000_0000_0000 <= b <= 0x8000_0000_0000_0000,
    ;
}

/// A scale factor: the exact fraction `num / den`.
#[derive(Clone, Copy, Debug, PartialEq, Eq, Structural)]
pub struct Scale {
    pub num: i64,
    pub den: i64,
}

impl Scale {
    /// The fraction exists and is not zero.
    pub open spec fn wf(&self) -> bool {
        self.den > 0 && self.num != 0
    }

    /// Tells whether the fraction exists and is not zero.
    pub fn is_valid(&self) -> (valid: bool)
        ensures
            valid == self.wf(),
    {
        self.den > 0 && self.num != 0
    }

    /// `v` times the factor, rounded toward negative infinity.
    pub open spec fn times(&self, v: int) -> int {
        (v * self.num) / (self.den as int)
    }

    /// `v` divided by the factor, rounded toward negative infinity.
    pub open spec fn divide(&self, v: int) -> int {
        if self.num > 0 {
            (v * self.den) / (self.num as int)
        } else {
            (-(v * self.den)) / (-(self.num as int))
        }
    }

    /// Returns `v` times the factor, rounded toward negative infinity.
    pub fn scale_up(&self, v: i64) -> (scaled: i128)
        requires
            self.wf(),
        ensures
            scaled == self.times(v as int),
            -0x4000_0000_0000_0000_0000_0000_0000_0000 <= scaled
                <= 0x4000_0000_0000_0000_0000_0000_0000_0000,
    {
        proof {
            assert(-0x4000_0000_0000_0000_0000_0000_0000_0000 <= v * self.num
                <= 0x4000_0000_0000_0000_0000_0000_0000_0000) by (nonlinear_arith)
                requires
                    -0x8000_0000_0000_0000 <= v <= 0x8000_0000_0000_0000,
                    -0x8000_0000_0000_0000 <= self.num <= 0x8000_0000_0000_0000,
            ;
        }
        div_floor((v as i128) * (self.num as i128), self.den as i128)
    }

    /// Returns `v` divided by the factor, rounded toward negative infinity.
    pub fn scale_down(&self, v: i128) -> (scaled: i128)
        requires
            self.wf(),
            -0xffff_ffff_ffff_ffff <= v <= 0xffff_ffff_ffff_ffff,
        ensures
            scaled == self.divide(v as int),
    {
        proof {
            lemma_product_fits(v as int, self.den as int);
        }
        let product: i128 = v * (self.den as i128);
        if self.num > 0 {
            div_floor(product, self.num as i128)
        } else {
            div_floor(-product, -(self.num as i128))
        }
    }
}

/// What is no more than `bound` before it is scaled down by the divisor
/// of a factor that is not negative, is no more than `bound` times the
/// factor: if `v * num <= bound * den`, then `v` times the factor is
/// between zero and `bound`.
pub proof fn lemma_times_bound(s: Scale, v: int, bound: int)
    requires
        s.den > 0,
        s.num >= 0,
        v >= 0,
        v * s.num <= bound * s.den,
    ensures
        0 <= s.times(v) <= bound,
{
    assert(v * s.num >= 0) by (nonlinear_arith)
        requires
            v >= 0,
            s.num >= 0,
    ;
    vstd::arithmetic::div_mod::lemma_div_pos_is_pos(v * s.num, s.den as int);
    vstd::arithmetic::div_mod::lemma_div_is_ordered(v * s.num, bound * s.den, s.den as int);
    vstd::arithmetic::div_mod::lemma_div_multiples_vanish(bound, s.den as int);
    assert(bound * s.den == s.den * bound) by (nonlinear_arith);
}

/// Returns `v` as an `i64`, where it is one.
fn narrow(v: i128) -> (narrowed: Option<i64>)
    ensures
        match narrowed {
            Some(n) => n == v,
            None => !fits_i64(v as int),
        },
{
    if v < i64::MIN as i128 || v > i64::MAX as i128 {
        None
    } else {
        Some(v as i64)
    }
}

/// The map between two coordinate spaces: a point of the inner space is
/// scaled, then moved by the origin, to give a point of the outer space.
///
/// The keyboard widget uses one to place the layout in the space it was
/// given. There the outer space is the widget's and the inner the
/// layout's: `reverse` takes layout coordinates to the widget, `forward`
/// takes a pointer position to the layout.
#[derive(Clone, Copy, Debug, PartialEq, Eq, Structural)]
pub struct Transformation {
    pub origin_x: i64,
    pub origin_y: i64,
    pub scale_x: Scale,
    pub scale_y: Scale,
}

impl Transformation {
    /// Both scale factors exist and are not zero.
    pub open spec fn wf(&self) -> bool {
        self.scale_x.wf() && self.scale_y.wf()
    }

    /// Tells whether both scale factors exist and are not zero.
    pub fn is_valid(&self) -> (valid: bool)
        ensures
            valid == self.wf(),
    {
        self.scale_x.is_valid() && self.scale_y.is_valid()
    }

    /// The inner abscissa that the outer abscissa `x` comes from.
    pub open spec fn forward_x(&self, x: int) -> int {
        self.scale_x.divide(x - self.origin_x)
    }

    /// The inner ordinate that the outer ordinate `y` comes from.
    pub open spec fn forward_y(&self, y: int) -> int {
        self.scale_y.divide(y - self.origin_y)
    }

    /// The outer abscissa to which the inner abscissa `x` goes.
    pub open spec fn reverse_x(&self, x: int) -> int {
        self.scale_x.times(x) + self.origin_x
    }

    /// The outer ordinate to which the inner ordinate `y` goes.
    pub open spec fn reverse_y(&self, y: int) -> int {
        self.scale_y.times(y) + self.origin_y
    }

    /// Whether `both` is this transformation with `next` applied inside
    /// it: the origin of `next` is scaled by this transformation before it
    /// is added, and the scale factors multiply.
    pub open spec fn chains_to(&self, next: Transformation, both: Transformation) -> bool {
        &&& both.origin_x == self.reverse_x(next.origin_x as int)
        &&& both.origin_y == self.reverse_y(next.origin_y as int)
        &&& both.scale_x.num == self.scale_x.num * next.scale_x.num
        &&& both.scale_x.den == self.scale_x.den * next.scale_x.den
        &&& both.scale_y.num == self.scale_y.num * next.scale_y.num
        &&& both.scale_y.den == self.scale_y.den * next.scale_y.den
    }

    /// Whether the transformation that `chains_to` describes can be
    /// written down.
    pub open spec fn can_chain(&self, next: Transformation) -> bool {
        &&& fits_i64(self.reverse_x(next.origin_x as int))
        &&& fits_i64(self.reverse_y(next.origin_y as int))
        &&& fits_i64(self.scale_x.num * next.scale_x.num)
        &&& fits_i64(self.scale_x.den * next.scale_x.den)
        &&& fits_i64(self.scale_y.num * next.scale_y.num)
        &&& fits_i64(self.scale_y.den * next.scale_y.den)
    }

    /// Applies `next` inside this transformation.
    ///
    /// Returns nothing where a number of the result is no `i64`.
    pub fn chain(self, next: Transformation) -> (both: Option<Transformation>)
        requires
            self.wf(),
        ensures
            match both {
                Some(t) => self.chains_to(next, t) && (next.wf() ==> t.wf()),
                None => !self.can_chain(next),
            },
    {
        proof {
            lemma_product_fits(self.scale_x.num as int, next.scale_x.num as int);
            lemma_product_fits(self.scale_x.den as int, next.scale_x.den as int);
            lemma_product_fits(self.scale_y.num as int, next.scale_y.num as int);
            lemma_product_fits(self.scale_y.den as int, next.scale_y.den as int);
        }
        let origin_x = narrow(self.scale_x.scale_up(next.origin_x) + (self.origin_x as i128));
        let origin_y = narrow(self.scale_y.scale_up(next.origin_y) + (self.origin_y as i128));
        let num_x = narrow((self.scale_x.num as i128) * (next.scale_x.num as i128));
        let den_x = narrow((self.scale_x.den as i128) * (next.scale_x.den as i128));
        let num_y = narrow((self.scale_y.num as i128) * (next.scale_y.num as i128));
        let den_y = narrow((self.scale_y.den as i128) * (next.scale_y.den as i128));
        match (origin_x, origin_y, num_x, den_x, num_y, den_y) {
            (Some(origin_x), Some(origin_y), Some(num_x), Some(den_x), Some(num_y), Some(den_y)) => {
                proof {
                    if next.wf() {
                        assert(num_x != 0 && den_x > 0) by (nonlinear_arith)
                            requires
                                num_x == self.scale_x.num * next.scale_x.num,
                                den_x == self.scale_x.den * next.scale_x.den,
                                self.scale_x.num != 0,
                                next.scale_x.num != 0,
                                self.scale_x.den > 0,
                                next.scale_x.den > 0,
                        ;
                        assert(num_y != 0 && den_y > 0) by (nonlinear_arith)
                            requires
                                num_y == self.scale_y.num * next.scale_y.num,
                                den_y == self.scale_y.den * next.scale_y.den,
                                self.scale_y.num != 0,
                                next.scale_y.num != 0,
                                self.scale_y.den > 0,
                                next.scale_y.den > 0,
                        ;
                    }
                }
                Some(
                    Transformation {
                        origin_x,
                        origin_y,
                        scale_x: Scale { num: num_x, den: den_x },
                        scale_y: Scale { num: num_y, den: den_y },
                    },
                )
            },
            _ => None,
        }
    }

    /// Takes a point of the outer space to the inner space.
    ///
    /// Returns nothing where a coordinate of the result is no `i64`.
    pub fn forward(&self, p: Point) -> (inner: Option<Point>)
        requires
            self.wf(),
        ensures
            match inner {
                Some(q) => q.x == self.forward_x(p.x as int) && q.y == self.forward_y(p.y as int),
                None => !fits_i64(self.forward_x(p.x as int)) || !fits_i64(
                    self.forward_y(p.y as int),
                ),
            },
    {
        let x = narrow(self.scale_x.scale_down((p.x as i128) - (self.origin_x as i128)));
        let y = narrow(self.scale_y.scale_down((p.y as i128) - (self.origin_y as i128)));
        match (x, y) {
            (Some(x), Some(y)) => Some(Point { x, y }),
            _ => None,
        }
    }

    /// Takes a point of the inner space to the outer space.
    ///
    /// Returns nothing where a coordinate of the result is no `i64`.
    pub fn reverse(&self, p: Point) -> (outer: Option<Point>)
        requires
            self.wf(),
        ensures
            match outer {
                Some(q) => q.x == self.reverse_x(p.x as int) && q.y == self.reverse_y(p.y as int),
                None => !fits_i64(self.reverse_x(p.x as int)) || !fits_i64(
                    self.reverse_y(p.y as int),
                ),
            },
    {
        let x = narrow(self.scale_x.scale_up(p.x) + (self.origin_x as i128));
        let y = narrow(self.scale_y.scale_up(p.y) + (self.origin_y as i128));
        match (x, y) {
            (Some(x), Some(y)) => Some(Point { x, y }),
            _ => None,
        }
    }

    /// Whether the rectangle that `reverse_bounds` describes can be
    /// written down: the corner of `b` opposite its origin is a point, it
    /// and the origin go to points, and these are no further apart than an
    /// `i64` can tell.
    pub open spec fn can_reverse_bounds(&self, b: Bounds) -> bool {
        &&& fits_i64(b.x + b.width)
        &&& fits_i64(b.y + b.height)
        &&& fits_i64(self.reverse_x(b.x as int))
        &&& fits_i64(self.reverse_y(b.y as int))
        &&& fits_i64(self.reverse_x(b.x + b.width))
        &&& fits_i64(self.reverse_y(b.y + b.height))
        &&& fits_i64(self.reverse_x(b.x + b.width) - self.reverse_x(b.x as int))
        &&& fits_i64(self.reverse_y(b.y + b.height) - self.reverse_y(b.y as int))
    }

    /// The rectangle of the outer space that the rectangle `b` of the
    /// inner space goes to, where it can be written down.
    ///
    /// The origin of `b` and the corner opposite to it are taken across
    /// one by one, and the result is the rectangle from the one to the
    /// other; so it holds for scale factors of either sign.
    pub open spec fn reversed_bounds(&self, b: Bounds) -> Bounds {
        Bounds {
            x: self.reverse_x(b.x as int) as i64,
            y: self.reverse_y(b.y as int) as i64,
            width: (self.reverse_x(b.x + b.width) - self.reverse_x(b.x as int)) as i64,
            height: (self.reverse_y(b.y + b.height) - self.reverse_y(b.y as int)) as i64,
        }
    }

    /// Takes a rectangle of the inner space to the outer space.
    ///
    /// Returns nothing where the result cannot be written down.
    pub fn reverse_bounds(&self, b: Bounds) -> (outer: Option<Bounds>)
        requires
            self.wf(),
        ensures
            match outer {
                Some(o) => self.can_reverse_bounds(b) && o == self.reversed_bounds(b),
                None => !self.can_reverse_bounds(b),
            },
    {
        let far_x = narrow((b.x as i128) + (b.width as i128));
        let far_y = narrow((b.y as i128) + (b.height as i128));
        let (far_x, far_y) = match (far_x, far_y) {
            (Some(x), Some(y)) => (x, y),
            _ => {
                return None;
            },
        };
        let start = self.reverse(Point { x: b.x, y: b.y });
        let end = self.reverse(Point { x: far_x, y: far_y });
        match (start, end) {
            (Some(start), Some(end)) => {
                let width = narrow((end.x as i128) - (start.x as i128));
                let height = narrow((end.y as i128) - (start.y as i128));
                match (width, height) {
                    (Some(width), Some(height)) => Some(
                        Bounds { x: start.x, y: start.y, width, height },
                    ),
                    _ => None,
                }
            },
            _ => None,
        }
    }
}

/// Dividing by a scale factor and multiplying again comes back to the
/// start, but for the rounding.
///
/// Both steps round toward negative infinity. With a positive factor the
/// result is at or below `v`, by less than the factor and one unit more;
/// with a negative factor it is at or above `v`, by less than the factor's
/// magnitude.
pub proof fn lemma_scale_round_trip(s: Scale, v: int)
    requires
        s.wf(),
    ensures
        s.num > 0 ==> {
            &&& s.times(s.divide(v)) <= v
            &&& (v - s.times(s.divide(v))) * s.den < s.num + s.den
        },
        s.num < 0 ==> {
            &&& s.times(s.divide(v)) >= v
            &&& (s.times(s.divide(v)) - v) * s.den < -s.num
        },
        s.num == s.den ==> s.times(s.divide(v)) == v,
{
    let num = s.num as int;
    let den = s.den as int;
    let q = s.divide(v);
    let r = s.times(q);
    vstd::arithmetic::div_mod::lemma_fundamental_div_mod(q * num, den);
    vstd::arithmetic::div_mod::lemma_mod_bound(q * num, den);
    let rest_back = (q * num) % den;
    if num > 0 {
        vstd::arithmetic::div_mod::lemma_fundamental_div_mod(v * den, num);
        vstd::arithmetic::div_mod::lemma_mod_bound(v * den, num);
        let rest = (v * den) % num;
        assert(r <= v && (v - r) * den < num + den) by (nonlinear_arith)
            requires
                v * den == num * q + rest,
                q * num == den * r + rest_back,
                0 <= rest < num,
                0 <= rest_back < den,
                den > 0,
        ;
        if num == den {
            assert(r == v) by (nonlinear_arith)
                requires
                    r <= v,
                    (v - r) * den < num + den,
                    v * den == num * q + rest,
                    q * num == den * r + rest_back,
                    0 <= rest < num,
                    0 <= rest_back < den,
                    num == den,
                    den > 0,
            ;
        }
    } else {
        vstd::arithmetic::div_mod::lemma_fundamental_div_mod(-(v * den), -num);
        vstd::arithmetic::div_mod::lemma_mod_bound(-(v * den), -num);
        let rest = (-(v * den)) % (-num);
        assert(r >= v && (r - v) * den < -num) by (nonlinear_arith)
            requires
                -(v * den) == (-num) * q + rest,
                q * num == den * r + rest_back,
                0 <= rest < -num,
                0 <= rest_back < den,
                den > 0,
        ;
    }
}

/// Taking a point to the inner space and back leaves it where it was, to
/// within the rounding of one inner unit.
///
/// On each axis the result differs from the start by less than the
/// magnitude of the scale factor and one unit more, and not at all where
/// the factor is one.
pub proof fn lemma_reverse_forward(t: Transformation, x: int, y: int)
    requires
        t.wf(),
    ensures
        ({
            let back = t.reverse_x(t.forward_x(x));
            &&& t.scale_x.num > 0 ==> back <= x && (x - back) * t.scale_x.den < t.scale_x.num
                + t.scale_x.den
            &&& t.scale_x.num < 0 ==> back >= x && (back - x) * t.scale_x.den < -t.scale_x.num
            &&& t.scale_x.num == t.scale_x.den ==> back == x
        }),
        ({
            let back = t.reverse_y(t.forward_y(y));
            &&& t.scale_y.num > 0 ==> back <= y && (y - back) * t.scale_y.den < t.scale_y.num
                + t.scale_y.den
            &&& t.scale_y.num < 0 ==> back >= y && (back - y) * t.scale_y.den < -t.scale_y.num
            &&& t.scale_y.num == t.scale_y.den ==> back == y
        }),
{
    lemma_scale_round_trip(t.scale_x, x - t.origin_x);
    lemma_scale_round_trip(t.scale_y, y - t.origin_y);
}

/// Where the scale factors are whole numbers, `forward` undoes `reverse`
/// exactly: a point of the inner space that is taken to the outer space
/// comes back to where it was.
pub proof fn lemma_forward_reverse_whole(t: Transformation, x: int, y: int)
    requires
        t.wf(),
        t.scale_x.den == 1,
        t.scale_y.den == 1,
    ensures
        t.forward_x(t.reverse_x(x)) == x,
        t.forward_y(t.reverse_y(y)) == y,
{
    lemma_whole_factor_inverts(t.scale_x, x);
    lemma_whole_factor_inverts(t.scale_y, y);
}

/// Multiplying by a whole factor and dividing by it again gives the start.
proof fn lemma_whole_factor_inverts(s: Scale, v: int)
    requires
        s.wf(),
        s.den == 1,
    ensures
        s.divide(s.times(v)) == v,
{
    let num = s.num as int;
    assert(s.times(v) == v * num);
    if num > 0 {
        vstd::arithmetic::div_mod::lemma_div_multiples_vanish(v, num);
        assert(v * num * 1 == num * v) by (nonlinear_arith);
    } else {
        vstd::arithmetic::div_mod::lemma_div_multiples_vanish(v, -num);
        assert(-(v * num * 1) == (-num) * v) by (nonlinear_arith);
    }
}

/// Where the scale factors are whole numbers, a chained transformation
/// does what its parts do one after the other: taking a point through
/// `next` and then through `first` is taking it through `both`.
pub proof fn lemma_chain_composes_whole(
    first: Transformation,
    next: Transformation,
    both: Transformation,
    x: int,
    y: int,
)
    requires
        first.chains_to(next, both),
        first.scale_x.den == 1,
        first.scale_y.den == 1,
        next.scale_x.den == 1,
        next.scale_y.den == 1,
    ensures
        both.reverse_x(x) == first.reverse_x(next.reverse_x(x)),
        both.reverse_y(y) == first.reverse_y(next.reverse_y(y)),
{
    assert(x * (first.scale_x.num * next.scale_x.num) + next.origin_x * first.scale_x.num == (x
        * next.scale_x.num + next.origin_x) * first.scale_x.num) by (nonlinear_arith);
    assert(y * (first.scale_y.num * next.scale_y.num) + next.origin_y * first.scale_y.num == (y
        * next.scale_y.num + next.origin_y) * first.scale_y.num) by (nonlinear_arith);
}

} // verus!
