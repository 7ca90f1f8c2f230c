//! Deterministic jitter sequence and the resolution-scale arithmetic
//! around it.
//!
//! Temporal accumulation needs a per-frame sub-pixel camera offset that is
//! identical for the same inputs on every run: a low-discrepancy pattern
//! over a phase count derived from the ratio of display to input width.
//! The offsets are Halton-sequence fractions in bases 2 and 3, kept here as
//! exact rationals, so the sequence, its bounds and its period are
//! mathematical facts rather than floating-point behaviour.

use crate::fsr::{FloatCoords2D, Resolution};
use crate::rat::{frac_add, frac_eq, frac_scale, Frac, Rat};
use vstd::arithmetic::div_mod::{
    lemma_div_decreases, lemma_div_pos_is_pos, lemma_fundamental_div_mod,
    lemma_mod_add_multiples_vanish,
};
use vstd::prelude::*;

verus! {

/// One digit-reversal step of the radix-`base` fraction: consumes the
/// digits of `i` least-significant first, accumulating them behind the
/// radix point. The pair `(num, den)` is the fraction built so far.
pub open spec fn spec_halton_iter(i: int, base: int, num: int, den: int) -> Frac
    decreases i,
    via spec_halton_iter_decreases
{
    if i <= 0 || base <= 1 {
        Frac { num, den }
    } else {
        spec_halton_iter(i / base, base, num * base + i % base, den * base)
    }
}

#[via_fn]
proof fn spec_halton_iter_decreases(i: int, base: int, num: int, den: int) {
    if !(i <= 0 || base <= 1) {
        lemma_div_decreases(i, base);
        lemma_div_pos_is_pos(i, base);
    }
}

/// Element `i` of the radix-`base` Halton sequence, as an exact fraction
/// in `[0, 1)`: the digits of `i` mirrored across the radix point.
pub open spec fn spec_halton(i: int, base: int) -> Frac {
    spec_halton_iter(i, base, 0, 1)
}

/// Computes the Halton fraction for `index` in radix `base`.
fn halton(index: u64, base: u64) -> (r: Rat)
    requires
        index < 0x8000_0000,
        2 <= base <= 3,
    ensures
        r.wf(),
        r.frac() == spec_halton(index as int, base as int),
        0 <= r.num < r.den,
        r.den <= 1 + 3 * index,
{
    let mut i: u64 = index;
    let mut num: u64 = 0;
    let mut den: u64 = 1;

    while i > 0
        invariant
            2 <= base <= 3,
            index < 0x8000_0000,
            i <= index,
            num < den,
            1 <= den,
            i >= 1 ==> den * i <= index,
            den <= 1 + 3 * index,
            spec_halton_iter(i as int, base as int, num as int, den as int) == spec_halton(
                index as int,
                base as int,
            ),
        decreases i,
    {
        proof {
            // den * i <= index bounds every product this iteration forms.
            assert(den <= index) by (nonlinear_arith)
                requires
                    den * i <= index,
                    i >= 1,
                    den >= 1,
            ;
            assert(num * base + i % base < den * base) by (nonlinear_arith)
                requires
                    num < den,
                    base >= 2,
                    0 <= i % base < base,
            ;
            lemma_fundamental_div_mod(i as int, base as int);
            lemma_div_decreases(i as int, base as int);
            assert((den * base) * (i / base) <= den * i) by (nonlinear_arith)
                requires
                    base >= 2,
                    i >= 1,
                    den >= 1,
                    base * (i / base) <= i,
            ;
            assert(den * base <= 3 * (den * i)) by (nonlinear_arith)
                requires
                    base <= 3,
                    i >= 1,
                    den >= 1,
            ;
        }
        let digit: u64 = i % base;
        num = num * base + digit;
        den = den * base;
        i = i / base;
    }
    Rat { num: num as i64, den: den as i64 }
}

/// The phase count of the jitter sequence for one input/display width
/// pair: eight times the squared upscale ratio, floored.
pub open spec fn spec_phase_count(render_width: int, display_width: int) -> int {
    8 * display_width * display_width / (render_width * render_width)
}

/// Computes the jitter phase count from the input (render) width and the
/// display width. The count must fit the native engine's signed 32-bit
/// count and be at least 1, since the engine divides the frame index by it.
pub fn jitter_phase_count(render_width: u32, display_width: u32) -> (n: i32)
    requires
        1 <= render_width,
        display_width <= 0x4000_0000,
        1 <= spec_phase_count(render_width as int, display_width as int) <= i32::MAX,
    ensures
        n == spec_phase_count(render_width as int, display_width as int),
{
    let d: u64 = display_width as u64;
    let r: u64 = render_width as u64;
    proof {
        assert(8 * d * d <= 0x8000_0000_0000_0000) by (nonlinear_arith)
            requires
                d <= 0x4000_0000,
        ;
        assert(r * r <= 0xffff_ffff_ffff_ffff) by (nonlinear_arith)
            requires
                r < 0x1_0000_0000,
        ;
        assert(r * r >= 1) by (nonlinear_arith)
            requires
                r >= 1,
        ;
    }
    let numerator: u64 = 8 * d * d;
    let denominator: u64 = r * r;
    let q: u64 = numerator / denominator;
    q as i32
}

/// Offset of the jitter sequence at one phase index: the base-2 and
/// base-3 Halton fractions of `frame_index mod phase_count + 1`, each
/// recentred from `[0, 1)` to `[-1/2, 1/2)`.
pub open spec fn spec_jitter_offset_x(frame_index: int, phase_count: int) -> Frac {
    spec_sub_half(spec_halton(frame_index % phase_count + 1, 2))
}

/// See [`spec_jitter_offset_x`].
pub open spec fn spec_jitter_offset_y(frame_index: int, phase_count: int) -> Frac {
    spec_sub_half(spec_halton(frame_index % phase_count + 1, 3))
}

/// Recentres a fraction of `[0, 1)` to `[-1/2, 1/2)`.
pub open spec fn spec_sub_half(h: Frac) -> Frac {
    Frac { num: 2 * h.num - h.den, den: 2 * h.den }
}

/// Computes the deterministic jitter offset for one frame: restartable,
/// a pure function of the frame index and the phase count, and sub-pixel
/// (each component lies in `[-1/2, 1/2)`).
pub fn jitter_offset(frame_index: i32, phase_count: i32) -> (r: FloatCoords2D)
    requires
        0 <= frame_index,
        1 <= phase_count,
    ensures
        r.x.wf(),
        r.y.wf(),
        r.x.frac() == spec_jitter_offset_x(frame_index as int, phase_count as int),
        r.y.frac() == spec_jitter_offset_y(frame_index as int, phase_count as int),
        -r.x.den <= 2 * r.x.num < r.x.den,
        -r.y.den <= 2 * r.y.num < r.y.den,
        r.x.den <= 0x3_0000_0002,
        r.y.den <= 0x3_0000_0002,
{
    let rem: u64 = (frame_index as u64) % (phase_count as u64);
    let idx: u64 = rem + 1;
    let hx = halton(idx, 2);
    let hy = halton(idx, 3);
    let x = Rat { num: 2 * hx.num - hx.den, den: 2 * hx.den };
    let y = Rat { num: 2 * hy.num - hy.den, den: 2 * hy.den };
    FloatCoords2D { x, y }
}

/// The sub-pixel translation that jitters the camera projection, in
/// normalized device coordinates: twice the offset over the input
/// resolution, with the vertical component negated to match the
/// coordinate convention of the underlying API.
pub fn jitter_projection_translation(offset: &FloatCoords2D, input_resolution: Resolution) -> (t:
    FloatCoords2D)
    requires
        offset.x.wf(),
        offset.y.wf(),
        1 <= input_resolution.width <= 0x2000_0000,
        1 <= input_resolution.height <= 0x2000_0000,
        offset.x.den <= 0x3_0000_0002,
        offset.y.den <= 0x3_0000_0002,
        -offset.x.den <= offset.x.num <= offset.x.den,
        -offset.y.den <= offset.y.num <= offset.y.den,
    ensures
        t.x.wf(),
        t.y.wf(),
        t.x.frac() == (Frac {
            num: 2 * offset.x.num,
            den: offset.x.den * input_resolution.width,
        }),
        t.y.frac() == (Frac {
            num: -2 * offset.y.num,
            den: offset.y.den * input_resolution.height,
        }),
{
    proof {
        assert(offset.x.den * input_resolution.width <= 0x3_0000_0002 * 0x2000_0000)
            by (nonlinear_arith)
            requires
                0 < offset.x.den <= 0x3_0000_0002,
                0 < input_resolution.width <= 0x2000_0000,
        ;
        assert(offset.y.den * input_resolution.height <= 0x3_0000_0002 * 0x2000_0000)
            by (nonlinear_arith)
            requires
                0 < offset.y.den <= 0x3_0000_0002,
                0 < input_resolution.height <= 0x2000_0000,
        ;
        assert(offset.x.den * input_resolution.width >= 1) by (nonlinear_arith)
            requires
                offset.x.den >= 1,
                input_resolution.width >= 1,
        ;
        assert(offset.y.den * input_resolution.height >= 1) by (nonlinear_arith)
            requires
                offset.y.den >= 1,
                input_resolution.height >= 1,
        ;
    }
    let tx = Rat {
        num: 2 * offset.x.num,
        den: offset.x.den * (input_resolution.width as i64),
    };
    let ty = Rat {
        num: -2 * offset.y.num,
        den: offset.y.den * (input_resolution.height as i64),
    };
    FloatCoords2D { x: tx, y: ty }
}

/// The jitter sequence is periodic with period equal to the phase count
/// derived from the display/input width ratio: a full phase later, the
/// offset is the same — for every non-negative frame index.
pub proof fn lemma_jitter_sequence_periodic(render_width: int, display_width: int, frame_index: int)
    requires
        0 <= frame_index,
        1 <= spec_phase_count(render_width, display_width),
    ensures
        spec_jitter_offset_x(
            frame_index + spec_phase_count(render_width, display_width),
            spec_phase_count(render_width, display_width),
        ) == spec_jitter_offset_x(frame_index, spec_phase_count(render_width, display_width)),
        spec_jitter_offset_y(
            frame_index + spec_phase_count(render_width, display_width),
            spec_phase_count(render_width, display_width),
        ) == spec_jitter_offset_y(frame_index, spec_phase_count(render_width, display_width)),
{
    let phase = spec_phase_count(render_width, display_width);
    lemma_mod_add_multiples_vanish(frame_index, phase);
    assert(frame_index + phase == phase + frame_index);
}

/// Jittering the projection composes as a pure left-multiplication by a
/// translation, and translations compose by adding their offsets: applying
/// the same jitter translation twice shifts the camera by exactly twice
/// the offset. The operation is deliberately not idempotent.
pub proof fn lemma_jitter_translation_composes(t: Frac)
    ensures
        frac_eq(frac_add(t, t), frac_scale(t, 2)),
{
    assert((t.num * t.den + t.num * t.den) * t.den == (2 * t.num) * (t.den * t.den))
        by (nonlinear_arith);
}

} // verus!
