//! The view transform of the canvas: a scale and a translation that carry
//! canvas space to screen space, and the pointer-anchored zoom.
//!
//! A scale is counted in millionths, so `SCALE_UNIT` stands for the factor
//! one. A canvas coordinate `c` is shown at `c * scale / SCALE_UNIT +
//! translation`, rounded to the nearest unit.

use vstd::prelude::*;
use crate::geometry::Point;
use crate::geometry::Rect;

verus! {

/// The scale factor one.
pub const SCALE_UNIT: u32 = 1_000_000;

/// The smallest scale a transform takes: one tenth.
pub const MIN_SCALE: u32 = 100_000;

/// The largest scale a transform takes: one hundred.
pub const MAX_SCALE: u32 = 100_000_000;

/// `a / d` rounded to the nearest integer, a tie going up.
pub open spec fn round_div(a: int, d: int) -> int
    recommends
        d > 0,
{
    (2 * a + d) / (2 * d)
}

/// The scale within the bounds nearest to `s`.
pub open spec fn clamp_scale(s: int) -> int {
    if s < MIN_SCALE {
        MIN_SCALE as int
    } else if s > MAX_SCALE {
        MAX_SCALE as int
    } else {
        s
    }
}

/// Whether a coordinate can be stored.
pub open spec fn fits_coord(v: int) -> bool {
    i64::MIN <= v <= i64::MAX
}

/// The transform as mathematics: unbounded integers, no storage limits.
pub struct TransformModel {
    pub scale: int,
    pub dx: int,
    pub dy: int,
}

impl TransformModel {
    /// The scale is within its bounds.
    pub open spec fn wf(self) -> bool {
        MIN_SCALE <= self.scale <= MAX_SCALE
    }

    /// Both parts of the translation can be stored.
    pub open spec fn fits(self) -> bool {
        fits_coord(self.dx) && fits_coord(self.dy)
    }

    /// Where a canvas abscissa is shown on screen.
    pub open spec fn screen_x(self, cx: int) -> int {
        round_div(cx * self.scale, SCALE_UNIT as int) + self.dx
    }

    /// Where a canvas ordinate is shown on screen.
    pub open spec fn screen_y(self, cy: int) -> int {
        round_div(cy * self.scale, SCALE_UNIT as int) + self.dy
    }

    /// The canvas abscissa shown at a screen abscissa.
    pub open spec fn canvas_x(self, sx: int) -> int {
        round_div((sx - self.dx) * SCALE_UNIT, self.scale)
    }

    /// The canvas ordinate shown at a screen ordinate.
    pub open spec fn canvas_y(self, sy: int) -> int {
        round_div((sy - self.dy) * SCALE_UNIT, self.scale)
    }

    /// Where a canvas point is shown on screen, if that can be stored.
    pub open spec fn screen_point(self, c: Point) -> Option<Point> {
        let x = self.screen_x(c.x as int);
        let y = self.screen_y(c.y as int);
        if fits_coord(x) && fits_coord(y) {
            Some(Point { x: x as i64, y: y as i64 })
        } else {
            None
        }
    }

    /// The canvas point shown at a screen point, if that can be stored.
    pub open spec fn canvas_point(self, p: Point) -> Option<Point> {
        let x = self.canvas_x(p.x as int);
        let y = self.canvas_y(p.y as int);
        if fits_coord(x) && fits_coord(y) {
            Some(Point { x: x as i64, y: y as i64 })
        } else {
            None
        }
    }

    /// Where a canvas rectangle is shown on screen, if both corners can be
    /// stored.
    pub open spec fn screen_rect(self, r: Rect) -> Option<Rect> {
        match (self.screen_point(r.min), self.screen_point(r.max)) {
            (Some(min), Some(max)) => Some(Rect { min, max }),
            _ => None,
        }
    }

    /// The transform moved by a screen displacement.
    pub open spec fn moved(self, ddx: int, ddy: int) -> TransformModel {
        TransformModel { scale: self.scale, dx: self.dx + ddx, dy: self.dy + ddy }
    }

    /// The scale after a zoom by `zoom` millionths.
    pub open spec fn zoomed_scale(self, zoom: int) -> int {
        clamp_scale(round_div(self.scale * zoom, SCALE_UNIT as int))
    }

    /// The transform after a zoom by `zoom` millionths that holds the screen
    /// point `(px, py)` in place, followed by a move by `(pan_x, pan_y)`.
    ///
    /// The canvas point under the pointer is `(p - d) / scale`. Scaling about
    /// it and keeping it at `p` gives the translation `p - (p - d) * s2 /
    /// scale`, where `s2` is the new scale after clamping.
    pub open spec fn zoomed(self, px: int, py: int, zoom: int, pan_x: int, pan_y: int)
        -> TransformModel {
        let s2 = self.zoomed_scale(zoom);
        TransformModel {
            scale: s2,
            dx: px - round_div((px - self.dx) * s2, self.scale) + pan_x,
            dy: py - round_div((py - self.dy) * s2, self.scale) + pan_y,
        }
    }
}

/// The distance between two integers.
pub open spec fn dist(a: int, b: int) -> int {
    if a <= b {
        b - a
    } else {
        a - b
    }
}

/// Rounded division is off by at most half the divisor.
pub proof fn lemma_round_div_error(a: int, d: int)
    requires
        d > 0,
    ensures
        2 * dist(round_div(a, d) * d, a) <= d,
{
    let q = round_div(a, d);
    let n = 2 * a + d;
    let m = 2 * d;
    assert(n == m * (n / m) + n % m && 0 <= n % m < m) by {
        vstd::arithmetic::div_mod::lemma_fundamental_div_mod(n, m);
        vstd::arithmetic::div_mod::lemma_mod_bound(n, m);
    }
    assert(m * q == 2 * (q * d)) by (nonlinear_arith)
        requires
            m == 2 * d,
    ;
}

/// Rounded division of a multiple is exact.
pub proof fn lemma_round_div_multiple(k: int, d: int)
    requires
        d > 0,
    ensures
        round_div(k * d, d) == k,
{
    let n = 2 * (k * d) + d;
    let m = 2 * d;
    assert(n == k * m + d) by (nonlinear_arith)
        requires
            n == 2 * (k * d) + d,
            m == 2 * d,
    ;
    vstd::arithmetic::div_mod::lemma_fundamental_div_mod_converse(n, m, k, d);
}


/// Rounded division on stored integers.
fn round_div_exec(a: i128, d: i128) -> (q: i128)
    requires
        0 < d <= 0x1_0000_0000,
        -0x1_0000_0000_0000_0000_0000_0000int <= a <= 0x1_0000_0000_0000_0000_0000_0000int,
    ensures
        q == round_div(a as int, d as int),
        -0x1_0000_0000_0000_0000_0000_0000int <= q <= 0x1_0000_0000_0000_0000_0000_0000int,
{
    let n: i128 = 2 * a + d;
    let m: i128 = 2 * d;
    proof {
        lemma_round_div_error(a as int, d as int);
        let q = round_div(a as int, d as int);
        assert(q == (n as int) / (m as int));
        assert(-0x1_0000_0000_0000_0000_0000_0000int <= q <= 0x1_0000_0000_0000_0000_0000_0000int)
            by (nonlinear_arith)
            requires
                d >= 1,
                2 * dist(q * d, a as int) <= d,
                -0x1_0000_0000_0000_0000_0000_0000int <= a <= 0x1_0000_0000_0000_0000_0000_0000int,
        ;
    }
    let q = n.checked_div_euclid(m);
    q.unwrap()
}

/// The pan/zoom transform of a canvas.
///
/// The scale is held within `MIN_SCALE ..= MAX_SCALE` at all times.
#[derive(Clone, Copy, Debug)]
pub struct CanvasTransform {
    scale: u32,
    translation: Point,
}

impl View for CanvasTransform {
    type V = TransformModel;

    closed spec fn view(&self) -> TransformModel {
        TransformModel {
            scale: self.scale as int,
            dx: self.translation.x as int,
            dy: self.translation.y as int,
        }
    }
}

impl Default for CanvasTransform {
    /// The identity.
    fn default() -> (t: CanvasTransform)
        ensures
            t@ == (TransformModel { scale: SCALE_UNIT as int, dx: 0, dy: 0 }),
    {
        CanvasTransform::identity()
    }
}

impl CanvasTransform {
    #[verifier::type_invariant]
    closed spec fn scale_in_bounds(self) -> bool {
        MIN_SCALE <= self.scale <= MAX_SCALE
    }

    /// The transform that shows every canvas point at its own coordinates.
    pub fn identity() -> (t: CanvasTransform)
        ensures
            t@ == (TransformModel { scale: SCALE_UNIT as int, dx: 0, dy: 0 }),
            t@.wf(),
    {
        CanvasTransform { scale: SCALE_UNIT, translation: Point { x: 0, y: 0 } }
    }

    /// A transform with the given parts, the scale brought within bounds.
    pub fn new(scale: u32, translation: Point) -> (t: CanvasTransform)
        ensures
            t@ == (TransformModel {
                scale: clamp_scale(scale as int),
                dx: translation.x as int,
                dy: translation.y as int,
            }),
            t@.wf(),
    {
        let s: u32 = if scale < MIN_SCALE {
            MIN_SCALE
        } else if scale > MAX_SCALE {
            MAX_SCALE
        } else {
            scale
        };
        CanvasTransform { scale: s, translation }
    }

    /// The scale, in millionths.
    pub fn scale(&self) -> (s: u32)
        ensures
            s == self@.scale,
            self@.wf(),
    {
        proof {
            use_type_invariant(self);
        }
        self.scale
    }

    /// The translation, in screen units.
    pub fn translation(&self) -> (t: Point)
        ensures
            t.x == self@.dx,
            t.y == self@.dy,
            self@.fits(),
    {
        self.translation
    }

    /// Moves the view by a screen displacement. A move that would carry the
    /// translation out of the storable range is not applied.
    pub fn translate_by(&mut self, delta: Point) -> (applied: bool)
        ensures
            applied == old(self)@.moved(delta.x as int, delta.y as int).fits(),
            applied ==> final(self)@ == old(self)@.moved(delta.x as int, delta.y as int),
            !applied ==> final(self)@ == old(self)@,
            final(self)@.wf(),
    {
        proof {
            use_type_invariant(&*self);
        }
        let nx = self.translation.x.checked_add(delta.x);
        let ny = self.translation.y.checked_add(delta.y);
        match (nx, ny) {
            (Some(x), Some(y)) => {
                self.translation = Point { x, y };
                true
            },
            _ => false,
        }
    }

    /// Zooms by `zoom` millionths about the screen point `pointer`, which
    /// stays over the same canvas point, then moves the view by `pan`.
    ///
    /// The new scale is clamped to its bounds, and the translation follows
    /// the clamped scale. A zoom that would carry the translation out of the
    /// storable range is not applied.
    pub fn zoom_at(&mut self, pointer: Point, zoom: u32, pan: Point) -> (applied: bool)
        ensures
            applied == old(self)@.zoomed(
                pointer.x as int,
                pointer.y as int,
                zoom as int,
                pan.x as int,
                pan.y as int,
            ).fits(),
            applied ==> final(self)@ == old(self)@.zoomed(
                pointer.x as int,
                pointer.y as int,
                zoom as int,
                pan.x as int,
                pan.y as int,
            ),
            !applied ==> final(self)@ == old(self)@,
            final(self)@.wf(),
    {
        proof {
            use_type_invariant(&*self);
        }
        let s: u32 = self.scale;
        let s2: u32 = zoomed_scale_exec(s, zoom);
        let nx = anchored_offset(pointer.x, self.translation.x, s2, s, pan.x);
        let ny = anchored_offset(pointer.y, self.translation.y, s2, s, pan.y);
        match (nx, ny) {
            (Some(x), Some(y)) => {
                self.scale = s2;
                self.translation = Point { x, y };
                true
            },
            _ => false,
        }
    }

    /// The screen position of a canvas point; `None` where it cannot be
    /// stored.
    pub fn to_screen(&self, c: Point) -> (p: Option<Point>)
        ensures
            p == self@.screen_point(c),
    {
        proof {
            use_type_invariant(self);
        }
        let x = screen_coord(c.x, self.scale, self.translation.x);
        let y = screen_coord(c.y, self.scale, self.translation.y);
        match (x, y) {
            (Some(x), Some(y)) => Some(Point { x, y }),
            _ => None,
        }
    }

    /// The canvas position shown at a screen point; `None` where it cannot
    /// be stored.
    pub fn to_canvas(&self, p: Point) -> (c: Option<Point>)
        ensures
            c == self@.canvas_point(p),
    {
        proof {
            use_type_invariant(self);
        }
        let x = canvas_coord(p.x, self.scale, self.translation.x);
        let y = canvas_coord(p.y, self.scale, self.translation.y);
        match (x, y) {
            (Some(x), Some(y)) => Some(Point { x, y }),
            _ => None,
        }
    }

    /// The screen image of a canvas rectangle; `None` where a corner cannot
    /// be stored.
    pub fn rect_to_screen(&self, r: &Rect) -> (shown: Option<Rect>)
        ensures
            shown == self@.screen_rect(*r),
    {
        let min = self.to_screen(r.min);
        let max = self.to_screen(r.max);
        match (min, max) {
            (Some(min), Some(max)) => Some(Rect { min, max }),
            _ => None,
        }
    }
}

/// The stored form of a coordinate, if it has one.
pub open spec fn stored(v: int) -> Option<i64> {
    if fits_coord(v) {
        Some(v as i64)
    } else {
        None
    }
}

fn store_coord(v: i128) -> (r: Option<i64>)
    ensures
        r == stored(v as int),
{
    if v < i64::MIN as i128 || v > i64::MAX as i128 {
        None
    } else {
        Some(v as i64)
    }
}

fn zoomed_scale_exec(s: u32, zoom: u32) -> (s2: u32)
    requires
        MIN_SCALE <= s <= MAX_SCALE,
    ensures
        s2 == clamp_scale(round_div(s as int * zoom as int, SCALE_UNIT as int)),
        MIN_SCALE <= s2 <= MAX_SCALE,
{
    assert(s as int * zoom as int <= 100_000_000 * 0xffff_ffff && s as int * zoom as int >= 0)
        by (nonlinear_arith)
        requires
            0 <= s <= 100_000_000,
            0 <= zoom <= 0xffff_ffff,
    ;
    let product: u64 = (s as u64) * (zoom as u64);
    let raw: u64 = (2 * product + SCALE_UNIT as u64) / (2 * SCALE_UNIT as u64);
    if raw < MIN_SCALE as u64 {
        MIN_SCALE
    } else if raw > MAX_SCALE as u64 {
        MAX_SCALE
    } else {
        raw as u32
    }
}

fn anchored_offset(p: i64, t: i64, s2: u32, s: u32, pan: i64) -> (r: Option<i64>)
    requires
        MIN_SCALE <= s <= MAX_SCALE,
        MIN_SCALE <= s2 <= MAX_SCALE,
    ensures
        r == stored(p - round_div((p - t) * s2, s as int) + pan),
{
    let d: i128 = p as i128 - t as i128;
    assert(-0x1_0000_0000_0000_0000_0000_0000int <= d * s2 <= 0x1_0000_0000_0000_0000_0000_0000int)
        by (nonlinear_arith)
        requires
            -0x1_0000_0000_0000_0000int <= d <= 0x1_0000_0000_0000_0000int,
            0 <= s2 <= 100_000_000,
    ;
    let q: i128 = round_div_exec(d * (s2 as i128), s as i128);
    store_coord(p as i128 - q + pan as i128)
}

fn screen_coord(c: i64, s: u32, t: i64) -> (r: Option<i64>)
    requires
        MIN_SCALE <= s <= MAX_SCALE,
    ensures
        r == stored(round_div(c * s, SCALE_UNIT as int) + t),
{
    assert(-0x1_0000_0000_0000_0000_0000_0000int <= c * s <= 0x1_0000_0000_0000_0000_0000_0000int)
        by (nonlinear_arith)
        requires
            -0x1_0000_0000_0000_0000int <= c <= 0x1_0000_0000_0000_0000int,
            0 <= s <= 100_000_000,
    ;
    let q: i128 = round_div_exec((c as i128) * (s as i128), SCALE_UNIT as i128);
    store_coord(q + t as i128)
}

fn canvas_coord(p: i64, s: u32, t: i64) -> (r: Option<i64>)
    requires
        MIN_SCALE <= s <= MAX_SCALE,
    ensures
        r == stored(round_div((p - t) * SCALE_UNIT, s as int)),
{
    let d: i128 = p as i128 - t as i128;
    assert(d * SCALE_UNIT == d * 1_000_000);
    let q: i128 = round_div_exec(d * (SCALE_UNIT as i128), s as i128);
    store_coord(q)
}

/// A zoom by the factor one with no pan leaves the transform as it was.
pub proof fn lemma_zoom_by_one_is_identity(m: TransformModel, px: int, py: int)
    requires
        m.wf(),
    ensures
        m.zoomed(px, py, SCALE_UNIT as int, 0, 0) == m,
{
    lemma_zoom_by_one_is_move(m, px, py, 0, 0);
}

/// A zoom by the factor one is the move by its pan, whatever the pointer.
pub proof fn lemma_zoom_by_one_is_move(m: TransformModel, px: int, py: int, pan_x: int, pan_y: int)
    requires
        m.wf(),
    ensures
        m.zoomed(px, py, SCALE_UNIT as int, pan_x, pan_y) == m.moved(pan_x, pan_y),
{
    lemma_round_div_multiple(m.scale, SCALE_UNIT as int);
    lemma_round_div_multiple(px - m.dx, m.scale);
    lemma_round_div_multiple(py - m.dy, m.scale);
}

/// An anchored zoom keeps the pointer over the same canvas point, up to the
/// rounding of one division.
///
/// The canvas point under the pointer is the fraction `(p - d) / scale`.
/// Before and after the zoom the two fractions differ by at most half a
/// screen unit, which is stated here without division: `(p - d2) * scale`
/// and `(p - d) * scale2` differ by at most `scale / 2`.
pub proof fn lemma_zoom_keeps_anchor(m: TransformModel, px: int, py: int, zoom: int)
    requires
        m.wf(),
    ensures
        ({
            let z = m.zoomed(px, py, zoom, 0, 0);
            &&& z.wf()
            &&& 2 * dist((px - z.dx) * m.scale, (px - m.dx) * z.scale) <= m.scale
            &&& 2 * dist((py - z.dy) * m.scale, (py - m.dy) * z.scale) <= m.scale
        }),
{
    let z = m.zoomed(px, py, zoom, 0, 0);
    lemma_round_div_error((px - m.dx) * z.scale, m.scale);
    lemma_round_div_error((py - m.dy) * z.scale, m.scale);
}

/// The canvas coordinate read under a fixed screen coordinate moves by at
/// most six units when the translation is the one an anchored zoom gives.
proof fn lemma_anchor_axis(p: int, d: int, s: int, s2: int)
    requires
        MIN_SCALE <= s <= MAX_SCALE,
        MIN_SCALE <= s2 <= MAX_SCALE,
    ensures
        ({
            let d2 = p - round_div((p - d) * s2, s);
            let before = round_div((p - d) * SCALE_UNIT, s);
            let after = round_div((p - d2) * SCALE_UNIT, s2);
            &&& 2 * s2 * dist(after, before) <= 2 * s2 + SCALE_UNIT
            &&& dist(after, before) <= 6
        }),
{
    let u = SCALE_UNIT as int;
    let e = p - d;
    let e2 = round_div(e * s2, s);
    let before = round_div(e * u, s);
    let after = round_div(e2 * u, s2);
    lemma_round_div_error(e * s2, s);
    lemma_round_div_error(e * u, s);
    lemma_round_div_error(e2 * u, s2);
    let a = after * s2 - e2 * u;
    let b = e2 * s - e * s2;
    let c = e * u - before * s;
    assert(2 * a <= s2 && -s2 <= 2 * a);
    assert(2 * b <= s && -s <= 2 * b);
    assert(2 * c <= s && -s <= 2 * c);
    assert((after - before) * (s * s2) == s * a + u * b + s2 * c) by (nonlinear_arith)
        requires
            a == after * s2 - e2 * u,
            b == e2 * s - e * s2,
            c == e * u - before * s,
    ;
    let k = after - before;
    assert(2 * s2 * k <= 2 * s2 + u && -(2 * s2 + u) <= 2 * s2 * k) by (nonlinear_arith)
        requires
            k * (s * s2) == s * a + u * b + s2 * c,
            2 * a <= s2 && -s2 <= 2 * a,
            2 * b <= s && -s <= 2 * b,
            2 * c <= s && -s <= 2 * c,
            s >= 1,
            s2 >= 1,
            u >= 1,
    ;
    assert(-6 <= k <= 6) by (nonlinear_arith)
        requires
            2 * s2 * k <= 2 * s2 + u && -(2 * s2 + u) <= 2 * s2 * k,
            u == 1_000_000,
            s2 >= 100_000,
    ;
    assert(2 * s2 * dist(after, before) <= 2 * s2 + u) by (nonlinear_arith)
        requires
            2 * s2 * k <= 2 * s2 + u && -(2 * s2 + u) <= 2 * s2 * k,
            k == after - before,
            dist(after, before) == k || dist(after, before) == -k,
    ;
}

/// The canvas point read under the pointer is the same before and after an
/// anchored zoom, within a tolerance of `1 + SCALE_UNIT / (2 * scale)` canvas
/// units after the zoom, which is never more than six.
pub proof fn lemma_zoom_keeps_canvas_point(m: TransformModel, px: int, py: int, zoom: int)
    requires
        m.wf(),
    ensures
        ({
            let z = m.zoomed(px, py, zoom, 0, 0);
            &&& 2 * z.scale * dist(z.canvas_x(px), m.canvas_x(px)) <= 2 * z.scale + SCALE_UNIT
            &&& 2 * z.scale * dist(z.canvas_y(py), m.canvas_y(py)) <= 2 * z.scale + SCALE_UNIT
            &&& dist(z.canvas_x(px), m.canvas_x(px)) <= 6
            &&& dist(z.canvas_y(py), m.canvas_y(py)) <= 6
        }),
{
    let z = m.zoomed(px, py, zoom, 0, 0);
    lemma_anchor_axis(px, m.dx, m.scale, z.scale);
    lemma_anchor_axis(py, m.dy, m.scale, z.scale);
}

} // verus!
