//! Letterboxed and adaptive placement of the logical framebuffer inside the
//! physical window, in exact rational arithmetic, and the inverse mapping
//! from a physical pointer position to logical pixel coordinates.
//!
//! The bounding box is symmetric around the window center: it spans
//! `±num_x/den_x` horizontally and `±num_y/den_y` vertically in normalized
//! device coordinates. The embedder converts the two ratios to its
//! rendering API's floating-point form; all placement decisions are taken
//! here on integers.
use vstd::prelude::*;

use crate::fixed::{div_trunc, spec_clamp, FRAC_ONE};

verus! {

/// Window, monitor and logical dimensions handled here are at least one
/// pixel and fit in sixteen bits.
pub const DIM_LIMIT: u32 = 0xFFFF;

/// Bound on the numerators and denominators a bounding box can carry.
pub const BB_LIMIT: u64 = 0x10_0000_0000;

/// Mapped pointer coordinates saturate at this magnitude (±2^17 logical
/// pixels in fixed point), far outside any logical framebuffer.
pub const POINTER_LIMIT: i64 = 0x2_0000_0000_0000;

/// A dimension this module accepts.
pub open spec fn dim_ok(d: u32) -> bool {
    1 <= d <= DIM_LIMIT
}

/// The half-extents of the displayed logical area in normalized device
/// coordinates, as exact ratios: `±num_x/den_x` by `±num_y/den_y`.
pub struct BoundingBox {
    pub num_x: u64,
    pub den_x: u64,
    pub num_y: u64,
    pub den_y: u64,
}

impl BoundingBox {
    pub open spec fn wf(self) -> bool {
        &&& 1 <= self.num_x <= BB_LIMIT
        &&& 1 <= self.den_x <= BB_LIMIT
        &&& 1 <= self.num_y <= BB_LIMIT
        &&& 1 <= self.den_y <= BB_LIMIT
    }
}

/// Product of two dimension-scale values; the bounds keep it far from
/// overflow.
fn mul_dims(x: u64, y: u64) -> (r: u64)
    requires
        x <= 0x100_0000,
        y <= 0x100_0000,
    ensures
        r == x * y,
{
    proof {
        assert(x * y <= 0x1_0000_0000_0000) by (nonlinear_arith)
            requires
                x <= 0x100_0000,
                y <= 0x100_0000,
        ;
    }
    x * y
}

/// The fixed-mode radii: the largest scale at which the logical box fits
/// the window with a one-tenth margin on the smaller window side, centered.
/// The result is `(num_x, den_x, num_y, den_y)`.
pub open spec fn spec_fixed_radii(tw: int, th: int, ww: int, wh: int) -> (int, int, int, int) {
    let m = if ww <= wh {
        ww
    } else {
        wh
    };
    let a = 5 * ww - m;
    let b = 5 * wh - m;
    if a * th <= b * tw {
        (a, 5 * ww, th * a, 5 * tw * wh)
    } else {
        (tw * b, 5 * th * ww, b, 5 * wh)
    }
}

/// The adaptive-mode result: a pixel size that is the larger of the
/// exact-fit scale and half the window-filling scale, new logical
/// dimensions that cover the window at that pixel size, and the radii of
/// the covered area. The result is `((width, height), (num_x, den_x,
/// num_y, den_y))`; the pixel size is the ratio `p/q`.
pub open spec fn spec_adaptive_layout(tw: int, th: int, ww: int, wh: int) -> (
    (int, int),
    (int, int, int, int),
) {
    let fit_x_first = ww * th <= wh * tw;
    let fp = if fit_x_first {
        ww
    } else {
        wh
    };
    let fq = if fit_x_first {
        tw
    } else {
        th
    };
    let op = if fit_x_first {
        wh
    } else {
        ww
    };
    let oq = if fit_x_first {
        th
    } else {
        tw
    };
    let use_fit = fp * 2 * oq >= op * fq;
    let p = if use_fit {
        fp
    } else {
        op
    };
    let q = if use_fit {
        fq
    } else {
        2 * oq
    };
    let width = (ww * q + p - 1) / p;
    let height = (wh * q + p - 1) / p;
    ((width, height), (width * p, q * ww, height * p, q * wh))
}

/// Compute the logical dimensions and bounding box for a window. In fixed
/// mode the logical dimensions are the targets unchanged and the box
/// letterboxes them; in fullscreen (adaptive) mode the logical dimensions
/// grow or shrink to match the window's aspect ratio, never letting a
/// pixel shrink below half the window-filling size.
pub fn calculate_dimensions_and_bounding_box(
    target_width: u32,
    target_height: u32,
    window_width: u32,
    window_height: u32,
    fullscreen: bool,
) -> (r: ((u32, u32), BoundingBox))
    requires
        dim_ok(target_width),
        dim_ok(target_height),
        dim_ok(window_width),
        dim_ok(window_height),
        fullscreen ==> target_width <= 0x7FFF && target_height <= 0x7FFF,
    ensures
        r.1.wf(),
        dim_ok(r.0.0),
        dim_ok(r.0.1),
        !fullscreen ==> {
            &&& r.0 == (target_width, target_height)
            &&& spec_fixed_radii(
                target_width as int,
                target_height as int,
                window_width as int,
                window_height as int,
            ) == (r.1.num_x as int, r.1.den_x as int, r.1.num_y as int, r.1.den_y as int)
        },
        fullscreen ==> spec_adaptive_layout(
            target_width as int,
            target_height as int,
            window_width as int,
            window_height as int,
        ) == (
            (r.0.0 as int, r.0.1 as int),
            (r.1.num_x as int, r.1.den_x as int, r.1.num_y as int, r.1.den_y as int),
        ),
{
    let tw = target_width as u64;
    let th = target_height as u64;
    let ww = window_width as u64;
    let wh = window_height as u64;
    if !fullscreen {
        let m: u64 = if ww <= wh {
            ww
        } else {
            wh
        };
        let a: u64 = 5 * ww - m;
        let b: u64 = 5 * wh - m;
        proof {
            assert(1 <= (th as int) * (a as int) <= BB_LIMIT && 1 <= (5 * (tw as int)) * (
            wh as int) <= BB_LIMIT && 1 <= (tw as int) * (b as int) <= BB_LIMIT && 1 <= (5 * (
            th as int)) * (ww as int) <= BB_LIMIT) by (nonlinear_arith)
                requires
                    1 <= tw <= DIM_LIMIT,
                    1 <= th <= DIM_LIMIT,
                    1 <= ww <= DIM_LIMIT,
                    1 <= wh <= DIM_LIMIT,
                    4 <= a <= 5 * DIM_LIMIT,
                    4 <= b <= 5 * DIM_LIMIT,
                    BB_LIMIT == 0x10_0000_0000,
            ;
        }
        let bb = if mul_dims(a, th) <= mul_dims(b, tw) {
            BoundingBox {
                num_x: a,
                den_x: 5 * ww,
                num_y: mul_dims(th, a),
                den_y: mul_dims(5 * tw, wh),
            }
        } else {
            BoundingBox {
                num_x: mul_dims(tw, b),
                den_x: mul_dims(5 * th, ww),
                num_y: b,
                den_y: 5 * wh,
            }
        };
        ((target_width, target_height), bb)
    } else {
        let fit_x_first = mul_dims(ww, th) <= mul_dims(wh, tw);
        let fp: u64 = if fit_x_first {
            ww
        } else {
            wh
        };
        let fq: u64 = if fit_x_first {
            tw
        } else {
            th
        };
        let op: u64 = if fit_x_first {
            wh
        } else {
            ww
        };
        let oq: u64 = if fit_x_first {
            th
        } else {
            tw
        };
        let use_fit = mul_dims(fp * 2, oq) >= mul_dims(op, fq);
        let p: u64 = if use_fit {
            fp
        } else {
            op
        };
        let q: u64 = if use_fit {
            fq
        } else {
            2 * oq
        };
        proof {
            lemma_adaptive_pixel_bounds(tw as int, th as int, ww as int, wh as int);
        }
        let width: u64 = (mul_dims(ww, q) + p - 1) / p;
        let height: u64 = (mul_dims(wh, q) + p - 1) / p;
        let bb = BoundingBox {
            num_x: mul_dims(width, p),
            den_x: mul_dims(q, ww),
            num_y: mul_dims(height, p),
            den_y: mul_dims(q, wh),
        };
        ((width as u32, height as u32), bb)
    }
}

/// In adaptive mode the chosen pixel ratio `p/q` is at least half the
/// exact-fit scale on each axis, so the derived logical dimensions stay
/// within twice the targets (and within the accepted dimension range).
proof fn lemma_adaptive_pixel_bounds(tw: int, th: int, ww: int, wh: int)
    requires
        1 <= tw <= 0x7FFF,
        1 <= th <= 0x7FFF,
        1 <= ww <= DIM_LIMIT,
        1 <= wh <= DIM_LIMIT,
    ensures
        ({
            let ((width, height), (nx, dx, ny, dy)) = spec_adaptive_layout(tw, th, ww, wh);
            &&& 1 <= width <= 2 * tw
            &&& 1 <= height <= 2 * th
            &&& 1 <= nx <= BB_LIMIT
            &&& 1 <= dx <= BB_LIMIT
            &&& 1 <= ny <= BB_LIMIT
            &&& 1 <= dy <= BB_LIMIT
        }),
{
    let fit_x_first = ww * th <= wh * tw;
    let fp = if fit_x_first {
        ww
    } else {
        wh
    };
    let fq = if fit_x_first {
        tw
    } else {
        th
    };
    let op = if fit_x_first {
        wh
    } else {
        ww
    };
    let oq = if fit_x_first {
        th
    } else {
        tw
    };
    let use_fit = fp * 2 * oq >= op * fq;
    let p = if use_fit {
        fp
    } else {
        op
    };
    let q = if use_fit {
        fq
    } else {
        2 * oq
    };
    // on each axis, window * q <= 2 * target * p
    if use_fit {
        if fit_x_first {
            assert(ww * tw <= 2 * tw * ww) by (nonlinear_arith)
                requires
                    1 <= tw && 1 <= ww,
            ;
            assert(wh * tw <= 2 * th * ww) by (nonlinear_arith)
                requires
                    ww * 2 * th >= wh * tw,
            ;
        } else {
            assert(ww * th <= 2 * tw * wh) by (nonlinear_arith)
                requires
                    wh * 2 * tw >= ww * th,
            ;
            assert(wh * th <= 2 * th * wh) by (nonlinear_arith)
                requires
                    1 <= th && 1 <= wh,
            ;
        }
    } else {
        if fit_x_first {
            assert(ww * (2 * th) <= 2 * tw * wh) by (nonlinear_arith)
                requires
                    ww * th <= wh * tw,
            ;
            assert(wh * (2 * th) <= 2 * th * wh) by (nonlinear_arith);
        } else {
            assert(ww * (2 * tw) <= 2 * tw * ww) by (nonlinear_arith);
            assert(wh * (2 * tw) <= 2 * th * ww) by (nonlinear_arith)
                requires
                    !(ww * th <= wh * tw),
            ;
        }
    }
    assert(ww * q <= 2 * tw * p && wh * q <= 2 * th * p);
    let width = (ww * q + p - 1) / p;
    let height = (wh * q + p - 1) / p;
    assert(ww * q + p - 1 < (2 * tw + 1) * p) by (nonlinear_arith)
        requires
            ww * q <= 2 * tw * p,
            1 <= p,
    ;
    vstd::arithmetic::div_mod::lemma_multiply_divide_lt(ww * q + p - 1, p, 2 * tw + 1);
    assert(wh * q + p - 1 < (2 * th + 1) * p) by (nonlinear_arith)
        requires
            wh * q <= 2 * th * p,
            1 <= p,
    ;
    vstd::arithmetic::div_mod::lemma_multiply_divide_lt(wh * q + p - 1, p, 2 * th + 1);
    assert(p <= ww * q + p - 1) by (nonlinear_arith)
        requires
            1 <= ww && 1 <= q && 1 <= p,
    ;
    assert(width >= 1) by {
        vstd::arithmetic::div_mod::lemma_div_is_ordered(p, ww * q + p - 1, p);
        vstd::arithmetic::div_mod::lemma_div_by_self(p);
    }
    assert(p <= wh * q + p - 1) by (nonlinear_arith)
        requires
            1 <= wh && 1 <= q && 1 <= p,
    ;
    assert(height >= 1) by {
        vstd::arithmetic::div_mod::lemma_div_is_ordered(p, wh * q + p - 1, p);
        vstd::arithmetic::div_mod::lemma_div_by_self(p);
    }
    assert(1 <= width * p <= BB_LIMIT && 1 <= height * p <= BB_LIMIT) by (nonlinear_arith)
        requires
            1 <= width <= 2 * tw,
            1 <= height <= 2 * th,
            tw <= 0x7FFF && th <= 0x7FFF,
            1 <= p <= DIM_LIMIT,
            BB_LIMIT == 0x10_0000_0000,
    ;
    assert(1 <= q * ww <= BB_LIMIT && 1 <= q * wh <= BB_LIMIT) by (nonlinear_arith)
        requires
            1 <= q <= 2 * DIM_LIMIT,
            1 <= ww <= DIM_LIMIT,
            1 <= wh <= DIM_LIMIT,
            BB_LIMIT == 0x10_0000_0000,
    ;
}

/// The window size used for a new fixed-size window: the logical box fitted
/// to the monitor with a one-fifth margin, truncated to whole pixels.
pub open spec fn spec_window_size(w: int, h: int, mw: int, mh: int) -> (int, int) {
    let m = if mw <= mh {
        mw
    } else {
        mh
    };
    let a = 5 * mw - 2 * m;
    let b = 5 * mh - 2 * m;
    if a * h <= b * w {
        (a / 5, (h * a) / (5 * w))
    } else {
        ((w * b) / (5 * h), b / 5)
    }
}

pub fn get_window_size(width: u32, height: u32, monitor_width: u32, monitor_height: u32) -> (r: (
    u32,
    u32,
))
    requires
        dim_ok(width),
        dim_ok(height),
        dim_ok(monitor_width),
        dim_ok(monitor_height),
    ensures
        spec_window_size(
            width as int,
            height as int,
            monitor_width as int,
            monitor_height as int,
        ) == (r.0 as int, r.1 as int),
        r.0 <= DIM_LIMIT,
        r.1 <= DIM_LIMIT,
{
    let w = width as u64;
    let h = height as u64;
    let mw = monitor_width as u64;
    let mh = monitor_height as u64;
    let m: u64 = if mw <= mh {
        mw
    } else {
        mh
    };
    let a: u64 = 5 * mw - 2 * m;
    let b: u64 = 5 * mh - 2 * m;
    if mul_dims(a, h) <= mul_dims(b, w) {
        let sx: u64 = a / 5;
        let sy: u64 = mul_dims(h, a) / (5 * w);
        proof {
            vstd::arithmetic::div_mod::lemma_div_is_ordered(a as int, 5 * (mw as int), 5);
            vstd::arithmetic::div_mod::lemma_div_multiples_vanish(mw as int, 5);
            assert((h as int) * (a as int) <= (mh as int) * (5 * (w as int))) by (nonlinear_arith)
                requires
                    (a as int) * (h as int) <= (b as int) * (w as int),
                    b <= 5 * mh,
                    1 <= w && 1 <= h,
            ;
            vstd::arithmetic::div_mod::lemma_multiply_divide_le(
                (h as int) * (a as int),
                5 * (w as int),
                mh as int,
            );
        }
        (sx as u32, sy as u32)
    } else {
        let sx: u64 = mul_dims(w, b) / (5 * h);
        let sy: u64 = b / 5;
        proof {
            vstd::arithmetic::div_mod::lemma_div_is_ordered(b as int, 5 * (mh as int), 5);
            vstd::arithmetic::div_mod::lemma_div_multiples_vanish(mh as int, 5);
            assert((w as int) * (b as int) <= (mw as int) * (5 * (h as int))) by (nonlinear_arith)
                requires
                    (a as int) * (h as int) > (b as int) * (w as int),
                    b <= 5 * mh,
                    a <= 5 * mw,
                    1 <= w && 1 <= h,
            ;
            vstd::arithmetic::div_mod::lemma_multiply_divide_le(
                (w as int) * (b as int),
                5 * (h as int),
                mw as int,
            );
        }
        (sx as u32, sy as u32)
    }
}

/// The logical coordinate (in 32.32 fixed point) a physical pointer
/// coordinate maps to along one axis: the position relative to the box's
/// lower corner, as a share of the box size, times the logical dimension;
/// saturated at `POINTER_LIMIT` for pointers far outside a very small box.
pub open spec fn spec_map_axis(num: int, den: int, window: int, logical: int, pos: int) -> int {
    spec_clamp(
        div_trunc(
            (2 * den * pos - window * (den - num)) * logical * FRAC_ONE,
            2 * num * window,
        ),
        -POINTER_LIMIT as int,
        POINTER_LIMIT as int,
    )
}

/// Map one pointer axis into logical coordinates under the bounding box
/// radius `num/den`. The result is negative or at least `logical` (in fixed
/// point) when the pointer lies in the letterbox margin.
pub fn map_axis(num: u64, den: u64, window: u32, logical: u32, pos: u32) -> (r: i64)
    requires
        1 <= num <= BB_LIMIT,
        1 <= den <= BB_LIMIT,
        dim_ok(window),
        dim_ok(logical),
        pos <= DIM_LIMIT,
    ensures
        r == spec_map_axis(num as int, den as int, window as int, logical as int, pos as int),
{
    proof {
        assert(2 * (den as int) * (pos as int) <= 0x40_0000_0000_0000 && 0 <= 2 * (den as int) * (
        pos as int)) by (nonlinear_arith)
            requires
                1 <= den <= BB_LIMIT,
                pos <= DIM_LIMIT,
        ;
        assert((window as int) * ((den as int) - (num as int)) <= 0x40_0000_0000_0000 && (
        window as int) * ((den as int) - (num as int)) >= -0x40_0000_0000_0000)
            by (nonlinear_arith)
            requires
                1 <= window <= DIM_LIMIT,
                1 <= den <= BB_LIMIT,
                1 <= num <= BB_LIMIT,
        ;
    }
    let t1: i128 = (2 * (den as i128)) * (pos as i128);
    let t2: i128 = (window as i128) * ((den as i128) - (num as i128));
    let rel: i128 = t1 - t2;
    proof {
        assert(
            (rel as int) * (logical as int) <= 0x8000_0000_0000_0000_0000 && (rel as int) * (
            logical as int) >= -0x8000_0000_0000_0000_0000) by (nonlinear_arith)
            requires
                -0x80_0000_0000_0000 <= rel <= 0x80_0000_0000_0000,
                1 <= logical <= DIM_LIMIT,
        ;
    }
    let t3: i128 = rel * (logical as i128);
    proof {
        assert((t3 as int) * (FRAC_ONE as int) <= 0x8000_0000_0000_0000_0000 * (FRAC_ONE as int)
            && (t3 as int) * (FRAC_ONE as int) >= -(0x8000_0000_0000_0000_0000 * (
        FRAC_ONE as int))) by (nonlinear_arith)
            requires
                -0x8000_0000_0000_0000_0000 <= t3 <= 0x8000_0000_0000_0000_0000,
        ;
    }
    let numerator: i128 = t3 * (FRAC_ONE as i128);
    proof {
        assert(2 * (num as int) * (window as int) <= 0x40_0000_0000_0000 && 1 <= 2 * (
        num as int) * (window as int)) by (nonlinear_arith)
            requires
                1 <= num <= BB_LIMIT,
                1 <= window <= DIM_LIMIT,
        ;
    }
    let divisor: i128 = (2 * (num as i128)) * (window as i128);
    let q: i128 = crate::fixed::div_trunc_i128(numerator, divisor);
    if q < -(POINTER_LIMIT as i128) {
        -POINTER_LIMIT
    } else if q > POINTER_LIMIT as i128 {
        POINTER_LIMIT
    } else {
        q as i64
    }
}

/// For an odd window dimension there is no exact center pixel; the pixel
/// just below it maps to within one logical unit below the logical center,
/// provided each logical pixel is at least half a physical pixel wide
/// (`logical/(2 (num/den) window) <= 1`). Together with
/// `lemma_center_maps_to_center` this puts the center pixel's image within
/// one unit of the logical center for every window dimension.
pub proof fn lemma_center_maps_near_center(num: int, den: int, window: int, logical: int)
    requires
        1 <= num <= BB_LIMIT,
        1 <= den <= BB_LIMIT,
        1 <= window <= DIM_LIMIT,
        window % 2 == 1,
        1 <= logical <= DIM_LIMIT,
        logical * den <= 2 * num * window,
    ensures
        logical * (FRAC_ONE as int) / 2 - FRAC_ONE <= spec_map_axis(
            num,
            den,
            window,
            logical,
            window / 2,
        ) <= logical * (FRAC_ONE as int) / 2,
{
    let f = FRAC_ONE as int;
    let pos = window / 2;
    assert(2 * pos == window - 1) by {
        vstd::arithmetic::div_mod::lemma_fundamental_div_mod(window, 2);
    }
    let rel = 2 * den * pos - window * (den - num);
    assert(rel == window * num - den) by (nonlinear_arith)
        requires
            2 * pos == window - 1,
            rel == 2 * den * pos - window * (den - num),
    ;
    let b = 2 * num * window;
    let c = logical * f / 2;
    assert(2 * c == logical * f);
    let numerator = rel * logical * f;
    let e = den * logical * f;
    assert(numerator == b * c - e) by (nonlinear_arith)
        requires
            rel == window * num - den,
            numerator == rel * logical * f,
            b == 2 * num * window,
            2 * c == logical * f,
            e == den * logical * f,
    ;
    assert(b >= 1 && 0 <= e && e <= b * f && 0 <= c) by (nonlinear_arith)
        requires
            1 <= num && 1 <= den && 1 <= window && 1 <= logical,
            0 < f,
            b == 2 * num * window,
            e == den * logical * f,
            logical * den <= 2 * num * window,
            c == logical * f / 2,
    ;
    let v = div_trunc(numerator, b);
    if numerator >= 0 {
        // c - f <= (b c - e)/b <= c
        vstd::arithmetic::div_mod::lemma_div_is_ordered(numerator, b * c, b);
        vstd::arithmetic::div_mod::lemma_div_multiples_vanish(c, b);
        assert(v <= c);
        if c - f >= 0 {
            assert(b * (c - f) <= numerator) by (nonlinear_arith)
                requires
                    numerator == b * c - e,
                    e <= b * f,
            ;
            vstd::arithmetic::div_mod::lemma_div_is_ordered(b * (c - f), numerator, b);
            vstd::arithmetic::div_mod::lemma_div_multiples_vanish(c - f, b);
        } else {
            vstd::arithmetic::div_mod::lemma_div_pos_is_pos(numerator, b);
        }
    } else {
        // e exceeds b c, so c < f; the magnitude (e - b c)/b stays within
        // f - c
        assert(c < f) by (nonlinear_arith)
            requires
                b * c - e < 0,
                e <= b * f,
                b >= 1,
                0 <= c,
        ;
        assert(0 - numerator == e - b * c);
        assert(e - b * c <= b * (f - c)) by (nonlinear_arith)
            requires
                e <= b * f,
        ;
        vstd::arithmetic::div_mod::lemma_div_is_ordered(e - b * c, b * (f - c), b);
        vstd::arithmetic::div_mod::lemma_div_multiples_vanish(f - c, b);
        vstd::arithmetic::div_mod::lemma_div_pos_is_pos(e - b * c, b);
        assert(v == -((e - b * c) / b));
        assert(c - f <= v <= 0);
    }
    assert(c <= 0x8000 * f) by (nonlinear_arith)
        requires
            c == logical * f / 2,
            1 <= logical <= DIM_LIMIT,
            0 < f,
    ;
    assert(0 - POINTER_LIMIT < c - f && c < POINTER_LIMIT);
}

/// A pointer at the exact center of the window maps to the exact center of
/// the logical area, whatever the bounding box: in fixed point, half the
/// logical dimension. This holds in fixed and adaptive modes alike, since
/// both produce a box symmetric around the window center.
pub proof fn lemma_center_maps_to_center(num: int, den: int, window: int, logical: int)
    requires
        1 <= num <= BB_LIMIT,
        1 <= den <= BB_LIMIT,
        2 <= window <= DIM_LIMIT,
        window % 2 == 0,
        1 <= logical <= DIM_LIMIT,
    ensures
        spec_map_axis(num, den, window, logical, window / 2) == logical * (FRAC_ONE as int) / 2,
{
    let pos = window / 2;
    assert(2 * pos == window);
    let rel = 2 * den * pos - window * (den - num);
    assert(rel == window * num) by (nonlinear_arith)
        requires
            2 * pos == window,
            rel == 2 * den * pos - window * (den - num),
    ;
    let numerator = rel * logical * (FRAC_ONE as int);
    let divisor = 2 * num * window;
    let half = logical * (FRAC_ONE as int) / 2;
    assert(logical * (FRAC_ONE as int) == 2 * half);
    assert(numerator == divisor * half) by (nonlinear_arith)
        requires
            rel == window * num,
            numerator == rel * logical * (FRAC_ONE as int),
            divisor == 2 * num * window,
            logical * (FRAC_ONE as int) == 2 * half,
    ;
    assert(numerator >= 0) by (nonlinear_arith)
        requires
            numerator == divisor * half,
            divisor >= 0,
            half >= 0,
    ;
    assert(divisor >= 1) by (nonlinear_arith)
        requires
            1 <= num,
            1 <= window,
            divisor == 2 * num * window,
    ;
    vstd::arithmetic::div_mod::lemma_div_multiples_vanish(half, divisor);
    assert(0 <= half < POINTER_LIMIT);
}

} // verus!
