//! Colour scheme by time of day (rules layer).
//!
//! From the time of day this module returns a calm gradient made of
//! neighbouring hues (an analogous scheme). Reading the clock and drawing are
//! left to the caller: the current time is an argument.
//!
//! Everything is exact integer arithmetic. Hues are counted in
//! `1 / HUE_UNITS_PER_DEGREE` of a degree, saturation and lightness in
//! percent, and colour components in `1 / COLOR_SCALE` of full intensity.
use vstd::prelude::*;

verus! {

/// Hue resolution: units per degree. Equal to the length in milliseconds of
/// one stretch between two keyframes of the day, so that interpolating
/// between keyframes is exact.
pub const HUE_UNITS_PER_DEGREE: i64 = 21_600_000;

/// A full turn of the hue circle (360 degrees) in hue units.
pub const FULL_TURN: i64 = 7_776_000_000;

/// Full intensity of a colour component.
pub const COLOR_SCALE: u64 = 25_920_000_000_000;

/// A colour; each component counts `1 / COLOR_SCALE` of full intensity.
#[derive(Debug, Clone, Copy, PartialEq, Eq, Structural)]
pub struct Color {
    pub r: u64,
    pub g: u64,
    pub b: u64,
}

/// The colours of a gradient, in order from the front (darker) to the back
/// (lighter).
#[derive(Debug, Clone, PartialEq, Eq)]
pub struct Palette {
    pub stops: Vec<Color>,
}

/// Absolute value.
pub open spec fn abs(v: int) -> int {
    if v < 0 { -v } else { v }
}

/// The triangle wave of HSL: `60 * (1 - |(h / 60) mod 2 - 1|)` degrees, in
/// hue units; it is zero at multiples of 120 degrees and peaks at the odd
/// multiples of 60 degrees.
pub open spec fn hue_ramp(h: int) -> int {
    60 * HUE_UNITS_PER_DEGREE - abs(h % (120 * HUE_UNITS_PER_DEGREE) - 60 * HUE_UNITS_PER_DEGREE)
}

/// `1 - |2l - 1|` in percent, for a lightness `l` in percent.
pub open spec fn lightness_span(l: int) -> int {
    100 - abs(2 * l - 100)
}

/// HSL to RGB, exactly: hue `h` in hue units (any integer, taken modulo a
/// full turn), saturation `s` and lightness `l` in percent.
///
/// With `c = (1 - |2l - 1|) s`, `x = c (1 - |(h / 60) mod 2 - 1|)` and
/// `m = l - c / 2`, the components are `(c, x, 0)`, `(x, c, 0)`, `(0, c, x)`,
/// `(0, x, c)`, `(x, 0, c)` or `(c, 0, x)` by the sixth of the circle `h`
/// lies in, each plus `m`.
pub open spec fn hsl_color(h: int, s: int, l: int) -> Color {
    let hh: int = h % (FULL_TURN as int);
    let c: int = lightness_span(l) * s * (120 * HUE_UNITS_PER_DEGREE);
    let x: int = lightness_span(l) * s * 2 * hue_ramp(hh);
    let m: int = l * (12000 * HUE_UNITS_PER_DEGREE) - lightness_span(l) * s * (60 * HUE_UNITS_PER_DEGREE);
    let deg: i64 = HUE_UNITS_PER_DEGREE;
    let (r1, g1, b1) = if hh < 60 * deg {
        (c, x, 0int)
    } else if hh < 120 * deg {
        (x, c, 0int)
    } else if hh < 180 * deg {
        (0int, c, x)
    } else if hh < 240 * deg {
        (0int, x, c)
    } else if hh < 300 * deg {
        (x, 0int, c)
    } else {
        (c, 0int, x)
    };
    Color { r: (r1 + m) as u64, g: (g1 + m) as u64, b: (b1 + m) as u64 }
}

/// The parts of the HSL formula stay in range: the wave within
/// `0..=60` degrees, `x` within `0..=c`, and `0 <= m`, `c + m <= COLOR_SCALE`.
proof fn lemma_hsl_parts(hh: int, s: int, l: int)
    requires
        0 <= s <= 100,
        0 <= l <= 100,
        0 <= hh,
    ensures
        0 <= hue_ramp(hh) <= 60 * HUE_UNITS_PER_DEGREE,
        0 <= lightness_span(l) <= 100,
        0 <= lightness_span(l) * s * 2 * hue_ramp(hh) <= lightness_span(l) * s * (120
            * HUE_UNITS_PER_DEGREE),
        0 <= l * (12000 * HUE_UNITS_PER_DEGREE) - lightness_span(l) * s * (60
            * HUE_UNITS_PER_DEGREE),
        lightness_span(l) * s * (120 * HUE_UNITS_PER_DEGREE) + l * (12000 * HUE_UNITS_PER_DEGREE)
            - lightness_span(l) * s * (60 * HUE_UNITS_PER_DEGREE) <= COLOR_SCALE,
{
    let k: int = HUE_UNITS_PER_DEGREE as int;
    let wave: int = hue_ramp(hh);
    let a: int = lightness_span(l);
    assert(0 <= hh % (120 * k) < 120 * k) by {
        vstd::arithmetic::div_mod::lemma_mod_bound(hh, 120 * k);
    }
    assert(0 <= a * s <= 10000) by (nonlinear_arith)
        requires
            0 <= a <= 100,
            0 <= s <= 100,
    ;
    assert(0 <= a * s * 2 * wave <= a * s * (120 * k)) by (nonlinear_arith)
        requires
            0 <= a * s,
            0 <= wave <= 60 * k,
    ;
    assert(a * s * (60 * k) <= l * (12000 * k)) by (nonlinear_arith)
        requires
            0 <= a <= 2 * l,
            0 <= s <= 100,
            k > 0,
    ;
    assert(a * s * (60 * k) + l * (12000 * k) <= 1200000 * k) by (nonlinear_arith)
        requires
            0 <= a <= 200 - 2 * l,
            0 <= s <= 100,
            0 <= l,
            k > 0,
    ;
}

/// Converts HSL (hue in hue units, saturation and lightness in percent) to
/// RGB with the standard formula, exactly.
pub fn hsl_to_rgb(h: i64, saturation_pct: u64, lightness_pct: u64) -> (c: Color)
    requires
        saturation_pct <= 100,
        lightness_pct <= 100,
    ensures
        c == hsl_color(h as int, saturation_pct as int, lightness_pct as int),
        c.r <= COLOR_SCALE,
        c.g <= COLOR_SCALE,
        c.b <= COLOR_SCALE,
{
    let hh: i64 = match h.checked_rem_euclid(FULL_TURN) {
        Some(v) => v,
        None => 0,
    };
    let s: u64 = saturation_pct;
    let l: u64 = lightness_pct;
    proof {
        vstd::arithmetic::div_mod::lemma_mod_bound(h as int, FULL_TURN as int);
        lemma_hsl_parts(hh as int, s as int, l as int);
    }
    let span: u64 = if 2 * l >= 100 { 200 - 2 * l } else { 2 * l };
    let k: u64 = HUE_UNITS_PER_DEGREE as u64;
    let c: u64 = span * s * (120 * k);
    let phase: u64 = (hh as u64) % (120 * k);
    let wave: u64 = if phase >= 60 * k { 120 * k - phase } else { phase };
    let x: u64 = span * s * 2 * wave;
    let m: u64 = l * (12000 * k) - span * s * (60 * k);
    let deg: i64 = HUE_UNITS_PER_DEGREE;
    let (r1, g1, b1) = if hh < 60 * deg {
        (c, x, 0)
    } else if hh < 120 * deg {
        (x, c, 0)
    } else if hh < 180 * deg {
        (0, c, x)
    } else if hh < 240 * deg {
        (0, x, c)
    } else if hh < 300 * deg {
        (x, 0, c)
    } else {
        (c, 0, x)
    };
    Color { r: r1 + m, g: g1 + m, b: b1 + m }
}

/// Length of a day in milliseconds: the time of day is counted in
/// milliseconds after midnight.
pub const DAY_MS: i64 = 86_400_000;

/// Distance between two keyframes of the day: a quarter of a day.
pub const SEGMENT_MS: u64 = 21_600_000;

/// Hue offset of the neighbouring stops: the centre hue plus or minus this
/// many degrees.
pub const ANALOGOUS_OFFSET_DEG: i64 = 28;

/// Saturation of every stop, in percent: moderate, to avoid visual noise.
pub const SATURATION_PCT: u64 = 45;

/// The signed turn from hue `a` to hue `b` (degrees) along the shorter arc,
/// in `(-180, 180]`: exactly opposite hues turn forward by half a circle.
pub open spec fn shortest_turn(a: int, b: int) -> int {
    180 - (a - b + 540) % 360
}

/// The hue a fraction `step / span` of the way from `a` to `b` (degrees)
/// along the shorter arc, in units of `1 / span` degree, within one turn.
pub open spec fn lerp_hue_spec(a: int, b: int, step: int, span: int) -> int {
    (a * span + shortest_turn(a, b) * step) % (360 * span)
}

/// `x` and `y` differ by a multiple of `m`, so they leave the same remainder.
proof fn lemma_mod_congruent(x: int, y: int, q: int, m: int)
    requires
        m > 0,
        x == y + q * m,
    ensures
        x % m == y % m,
{
    assert(x == m * q + y) by (nonlinear_arith)
        requires
            x == y + q * m,
    ;
    vstd::arithmetic::div_mod::lemma_mod_multiples_vanish(q, y, m);
}

/// Interpolates between two hues (degrees) along the shorter arc: the hue
/// `step / span` of the way from `a` to `b`, in units of `1 / span` degree,
/// within one turn. From 350 to 10 degrees the way crosses 0 (20 degrees)
/// rather than 180.
pub fn lerp_hue(a_deg: i64, b_deg: i64, step: u64, span: u64) -> (h: u128)
    requires
        span > 0,
    ensures
        h == lerp_hue_spec(a_deg as int, b_deg as int, step as int, span as int),
        h < 360 * span,
{
    let am: i64 = match a_deg.checked_rem_euclid(360) {
        Some(v) => v,
        None => 0,
    };
    let bm: i64 = match b_deg.checked_rem_euclid(360) {
        Some(v) => v,
        None => 0,
    };
    let wrapped: i64 = match (am - bm + 540).checked_rem_euclid(360) {
        Some(v) => v,
        None => 0,
    };
    proof {
        vstd::arithmetic::div_mod::lemma_mod_bound(a_deg as int, 360);
        vstd::arithmetic::div_mod::lemma_mod_bound(b_deg as int, 360);
        vstd::arithmetic::div_mod::lemma_mod_bound(am - bm + 540, 360);
    }
    let turn: i64 = 180 - wrapped;
    proof {
        assert(0 <= (am as int) * (span as int) <= 360 * 0x1_0000_0000_0000_0000) by (nonlinear_arith)
            requires
                0 <= am < 360,
                0 <= span <= u64::MAX,
        ;
        assert(-180 * 0x1_0000_0000_0000_0000 <= (turn as int) * (step as int) <= 180
            * 0x1_0000_0000_0000_0000) by (nonlinear_arith)
            requires
                -180 < turn <= 180,
                0 <= step <= u64::MAX,
        ;
    }
    let full: i128 = 360 * (span as i128);
    let total: i128 = (am as i128) * (span as i128) + (turn as i128) * (step as i128);
    let h: i128 = match total.checked_rem_euclid(full) {
        Some(v) => v,
        None => 0,
    };
    proof {
        let a: int = a_deg as int;
        let b: int = b_deg as int;
        let sp: int = span as int;
        let st: int = step as int;
        vstd::arithmetic::div_mod::lemma_fundamental_div_mod(a, 360);
        vstd::arithmetic::div_mod::lemma_fundamental_div_mod(b, 360);
        vstd::arithmetic::div_mod::lemma_mod_bound(a, 360);
        vstd::arithmetic::div_mod::lemma_mod_bound(b, 360);
        lemma_mod_congruent(a - b + 540, am - bm + 540, a / 360 - b / 360, 360);
        assert(turn == shortest_turn(a, b));
        assert(a * sp == am * sp + (a / 360) * (360 * sp)) by (nonlinear_arith)
            requires
                a == 360 * (a / 360) + am,
        ;
        lemma_mod_congruent(a * sp + turn * st, am * sp + turn * st, a / 360, 360 * sp);
        vstd::arithmetic::div_mod::lemma_mod_bound(total as int, full as int);
    }
    h as u128
}

/// Time of the keyframe `i` of the day, in milliseconds after midnight.
pub open spec fn keyframe_time(i: int) -> int {
    i * SEGMENT_MS
}

/// Centre hue (degrees) at keyframe `i`: night indigo, morning amber, midday
/// sky blue, evening orange, and night again, so that the day closes where
/// it began.
pub open spec fn keyframe_hue(i: int) -> int {
    if i == 0 {
        250
    } else if i == 1 {
        35
    } else if i == 2 {
        205
    } else if i == 3 {
        25
    } else {
        250
    }
}

/// The keyframe at index `i`: its time and its centre hue.
fn keyframe(i: usize) -> (k: (u64, i64))
    requires
        i <= 4,
    ensures
        k.0 == keyframe_time(i as int),
        k.1 == keyframe_hue(i as int),
{
    let hue: i64 = if i == 0 {
        250
    } else if i == 1 {
        35
    } else if i == 2 {
        205
    } else if i == 3 {
        25
    } else {
        250
    };
    ((i as u64) * SEGMENT_MS, hue)
}

/// Centre hue (hue units) at `t_ms` milliseconds after midnight: the first
/// stretch between keyframes that holds `t_ms` is interpolated along the
/// shorter arc; after the end of the day it is the hue of midnight.
pub open spec fn base_hue_spec(t_ms: int) -> int {
    if t_ms > 4 * SEGMENT_MS {
        keyframe_hue(0) * HUE_UNITS_PER_DEGREE
    } else {
        let i: int = if t_ms <= SEGMENT_MS {
            0
        } else if t_ms <= 2 * SEGMENT_MS {
            1
        } else if t_ms <= 3 * SEGMENT_MS {
            2
        } else {
            3int
        };
        lerp_hue_spec(keyframe_hue(i), keyframe_hue(i + 1), t_ms - keyframe_time(i), SEGMENT_MS as int)
    }
}

/// Centre hue (hue units, within one turn) at `t_ms` milliseconds after
/// midnight, interpolated between the keyframes along the shorter arc.
pub fn base_hue(t_ms: u64) -> (h: i64)
    ensures
        h == base_hue_spec(t_ms as int),
        0 <= h < FULL_TURN,
{
    let mut i: usize = 0;
    while i < 4
        invariant
            i <= 4,
            i > 0 ==> t_ms > keyframe_time(i as int),
        decreases 4 - i,
    {
        let (t0, h0) = keyframe(i);
        let (t1, h1) = keyframe(i + 1);
        if t_ms >= t0 && t_ms <= t1 {
            let h: u128 = lerp_hue(h0, h1, t_ms - t0, t1 - t0);
            return h as i64;
        }
        i = i + 1;
    }
    keyframe(0).1 * HUE_UNITS_PER_DEGREE
}

/// Lightness (percent) of stop `i`: darker at the front, lighter at the
/// back, for depth.
pub open spec fn stop_lightness(i: int) -> int {
    if i == 0 {
        28
    } else if i == 1 {
        40
    } else {
        52
    }
}

/// The palette at `t_ms` milliseconds after midnight (any integer, taken
/// modulo a day): the centre hue and its two neighbours, each
/// `ANALOGOUS_OFFSET_DEG` away, with the lightness of stops 0, 1 and 2.
pub open spec fn palette_spec(t_ms: int) -> Seq<Color> {
    let base: int = base_hue_spec(t_ms % (DAY_MS as int));
    let offset: int = ANALOGOUS_OFFSET_DEG * HUE_UNITS_PER_DEGREE;
    seq![
        hsl_color(base - offset, SATURATION_PCT as int, stop_lightness(0)),
        hsl_color(base, SATURATION_PCT as int, stop_lightness(1)),
        hsl_color(base + offset, SATURATION_PCT as int, stop_lightness(2)),
    ]
}

/// The palette for a time of day, in milliseconds after midnight (taken
/// modulo a day, so 0 is midnight and noon is half a day): a three-stop
/// gradient of neighbouring hues around the centre hue of that time, from
/// dark to light.
pub fn palette_for(time_of_day_ms: i64) -> (p: Palette)
    ensures
        p.stops@ == palette_spec(time_of_day_ms as int),
{
    let t: i64 = match time_of_day_ms.checked_rem_euclid(DAY_MS) {
        Some(v) => v,
        None => 0,
    };
    proof {
        vstd::arithmetic::div_mod::lemma_mod_bound(time_of_day_ms as int, DAY_MS as int);
    }
    let base: i64 = base_hue(t as u64);
    let offset: i64 = ANALOGOUS_OFFSET_DEG * HUE_UNITS_PER_DEGREE;
    let mut stops: Vec<Color> = Vec::new();
    stops.push(hsl_to_rgb(base - offset, SATURATION_PCT, 28));
    stops.push(hsl_to_rgb(base, SATURATION_PCT, 40));
    stops.push(hsl_to_rgb(base + offset, SATURATION_PCT, 52));
    Palette { stops }
}

/// Sum of the three components of a colour: a measure of its brightness.
pub open spec fn color_sum(c: Color) -> int {
    c.r + c.g + c.b
}

/// The components of `hsl_color` before the final conversion: one of them is
/// `c + m`, one `x + m` and one `m`, each within `0..=COLOR_SCALE`.
proof fn lemma_hsl_color_parts(h: int, s: int, l: int)
    requires
        0 <= s <= 100,
        0 <= l <= 100,
    ensures
        hsl_color(h, s, l).r <= COLOR_SCALE,
        hsl_color(h, s, l).g <= COLOR_SCALE,
        hsl_color(h, s, l).b <= COLOR_SCALE,
        color_sum(hsl_color(h, s, l)) == lightness_span(l) * s * (120 * HUE_UNITS_PER_DEGREE)
            + lightness_span(l) * s * 2 * hue_ramp(h) + 3 * (l * (12000 * HUE_UNITS_PER_DEGREE)
            - lightness_span(l) * s * (60 * HUE_UNITS_PER_DEGREE)),
{
    let k: int = HUE_UNITS_PER_DEGREE as int;
    let hh: int = h % (FULL_TURN as int);
    vstd::arithmetic::div_mod::lemma_mod_bound(h, FULL_TURN as int);
    lemma_hsl_parts(hh, s, l);
    assert(hh % (120 * k) == h % (120 * k)) by {
        vstd::arithmetic::div_mod::lemma_mod_mod(h, 120 * k, 3);
    }
}

/// Every colour that HSL gives for a saturation and lightness within
/// `0..=100` percent has all its components within `0..=COLOR_SCALE`.
pub proof fn hsl_components_in_unit_range(h: int, s: int, l: int)
    requires
        0 <= s <= 100,
        0 <= l <= 100,
    ensures
        hsl_color(h, s, l).r <= COLOR_SCALE,
        hsl_color(h, s, l).g <= COLOR_SCALE,
        hsl_color(h, s, l).b <= COLOR_SCALE,
{
    lemma_hsl_color_parts(h, s, l);
}

/// With zero saturation every hue gives the same grey: all three components
/// equal the lightness.
pub proof fn zero_saturation_is_grey(h: int, l: int)
    requires
        0 <= l <= 100,
    ensures
        hsl_color(h, 0, l).r == l * (COLOR_SCALE / 100),
        hsl_color(h, 0, l).g == l * (COLOR_SCALE / 100),
        hsl_color(h, 0, l).b == l * (COLOR_SCALE / 100),
{
    let a: int = lightness_span(l);
    assert(a * 0 == 0) by (nonlinear_arith);
    assert(a * 0 * (120 * HUE_UNITS_PER_DEGREE) == 0) by (nonlinear_arith);
    assert(a * 0 * 2 * hue_ramp(h % (FULL_TURN as int)) == 0) by (nonlinear_arith);
    assert(a * 0 * (60 * HUE_UNITS_PER_DEGREE) == 0) by (nonlinear_arith);
    assert(0 <= l * (12000 * HUE_UNITS_PER_DEGREE) <= COLOR_SCALE) by (nonlinear_arith)
        requires
            0 <= l <= 100,
    ;
}

/// The palette has three stops, and every component of every stop lies
/// within `0..=COLOR_SCALE`, whatever the time.
pub proof fn palette_stops_in_unit_range(t_ms: int)
    ensures
        palette_spec(t_ms).len() == 3,
        forall|i: int|
            0 <= i < 3 ==> {
                &&& (#[trigger] palette_spec(t_ms)[i]).r <= COLOR_SCALE
                &&& palette_spec(t_ms)[i].g <= COLOR_SCALE
                &&& palette_spec(t_ms)[i].b <= COLOR_SCALE
            },
{
    let base: int = base_hue_spec(t_ms % (DAY_MS as int));
    let offset: int = ANALOGOUS_OFFSET_DEG * HUE_UNITS_PER_DEGREE;
    hsl_components_in_unit_range(base - offset, SATURATION_PCT as int, 28);
    hsl_components_in_unit_range(base, SATURATION_PCT as int, 40);
    hsl_components_in_unit_range(base + offset, SATURATION_PCT as int, 52);
}

/// The palette repeats every day: a time and the same time any number of
/// days later or earlier give the same palette.
pub proof fn palette_repeats_daily(t_ms: int, days: int)
    ensures
        palette_spec(t_ms + days * DAY_MS) == palette_spec(t_ms),
{
    lemma_mod_congruent(t_ms + days * DAY_MS, t_ms, days, DAY_MS as int);
}

/// The day closes where it began: the centre hue at the end of the day is
/// the hue at midnight, night indigo (250 degrees).
pub proof fn day_closes_where_it_began()
    ensures
        base_hue_spec(0) == 250 * HUE_UNITS_PER_DEGREE,
        base_hue_spec(DAY_MS as int) == 250 * HUE_UNITS_PER_DEGREE,
{
    let q: int = SEGMENT_MS as int;
    vstd::arithmetic::div_mod::lemma_fundamental_div_mod_converse(755, 360, 2, 35);
    vstd::arithmetic::div_mod::lemma_fundamental_div_mod_converse(315, 360, 0, 315);
    assert(shortest_turn(250, 35) == 145);
    assert(shortest_turn(25, 250) == -135);
    assert(keyframe_time(0) == 0);
    assert(keyframe_time(3) == 3 * q);
    assert(lerp_hue_spec(250, 35, 0, q) == (250 * q + 145 * 0) % (360 * q));
    assert(base_hue_spec(0) == lerp_hue_spec(250, 35, 0, q));
    assert(base_hue_spec(0) == (250 * q) % (360 * q));
    assert(DAY_MS as int == 4 * q);
    assert(lerp_hue_spec(25, 250, q, q) == (25 * q + (-135) * q) % (360 * q));
    assert(base_hue_spec(DAY_MS as int) == lerp_hue_spec(25, 250, 4 * q - 3 * q, q));
    assert(base_hue_spec(DAY_MS as int) == (-110 * q) % (360 * q));
    vstd::arithmetic::div_mod::lemma_fundamental_div_mod_converse(250 * q, 360 * q, 0, 250 * q);
    vstd::arithmetic::div_mod::lemma_fundamental_div_mod_converse(-110 * q, 360 * q, -1, 250 * q);
}

/// Interpolation runs from one hue to the other: at the start it is at `a`,
/// after the whole span at `b` (both reduced to one turn), and the turn it
/// makes is the shorter one, at most half a circle, congruent to `b - a`.
pub proof fn lerp_hue_reaches_both_ends(a: int, b: int, span: int)
    requires
        span > 0,
    ensures
        lerp_hue_spec(a, b, 0, span) == (a % 360) * span,
        lerp_hue_spec(a, b, span, span) == (b % 360) * span,
        -180 < shortest_turn(a, b) <= 180,
        (a + shortest_turn(a, b)) % 360 == b % 360,
{
    let t: int = shortest_turn(a, b);
    vstd::arithmetic::div_mod::lemma_mod_bound(a - b + 540, 360);
    vstd::arithmetic::div_mod::lemma_fundamental_div_mod(a - b + 540, 360);
    let q: int = (a - b + 540) / 360;
    lemma_mod_congruent(a + t, b, q - 1, 360);
    vstd::arithmetic::div_mod::lemma_fundamental_div_mod(a, 360);
    vstd::arithmetic::div_mod::lemma_mod_bound(a, 360);
    vstd::arithmetic::div_mod::lemma_fundamental_div_mod(b, 360);
    vstd::arithmetic::div_mod::lemma_mod_bound(b, 360);
    assert(a * span + t * 0 == (a % 360) * span + (a / 360) * (360 * span)) by (nonlinear_arith)
        requires
            a == 360 * (a / 360) + a % 360,
    ;
    lemma_mod_congruent(a * span + t * 0, (a % 360) * span, a / 360, 360 * span);
    assert(0 <= (a % 360) * span < 360 * span) by (nonlinear_arith)
        requires
            0 <= a % 360 < 360,
            span > 0,
    ;
    vstd::arithmetic::div_mod::lemma_small_mod(((a % 360) * span) as nat, (360 * span) as nat);
    let w: int = (a + t) / 360;
    vstd::arithmetic::div_mod::lemma_fundamental_div_mod(a + t, 360);
    assert(a * span + t * span == (b % 360) * span + w * (360 * span)) by (nonlinear_arith)
        requires
            a + t == 360 * w + b % 360,
    ;
    lemma_mod_congruent(a * span + t * span, (b % 360) * span, w, 360 * span);
    assert(0 <= (b % 360) * span < 360 * span) by (nonlinear_arith)
        requires
            0 <= b % 360 < 360,
            span > 0,
    ;
    vstd::arithmetic::div_mod::lemma_small_mod(((b % 360) * span) as nat, (360 * span) as nat);
}

/// The triangle wave changes by at most one unit per unit of hue: moving
/// the hue forward by `d` lowers it by at most `d`.
proof fn lemma_hue_ramp_lipschitz(h: int, d: int)
    requires
        0 <= d <= 120 * HUE_UNITS_PER_DEGREE,
    ensures
        hue_ramp(h + d) >= hue_ramp(h) - d,
        0 <= hue_ramp(h) <= 60 * HUE_UNITS_PER_DEGREE,
{
    let m: int = 120 * HUE_UNITS_PER_DEGREE;
    vstd::arithmetic::div_mod::lemma_fundamental_div_mod(h, m);
    vstd::arithmetic::div_mod::lemma_mod_bound(h, m);
    let q: int = h / m;
    let r: int = h % m;
    assert(h == r + q * m) by (nonlinear_arith)
        requires
            h == m * q + r,
    ;
    assert((q + 1) * m == q * m + m) by (nonlinear_arith);
    if r + d < m {
        lemma_mod_congruent(h + d, r + d, q, m);
        vstd::arithmetic::div_mod::lemma_small_mod((r + d) as nat, m as nat);
    } else {
        lemma_mod_congruent(h + d, r + d - m, q + 1, m);
        vstd::arithmetic::div_mod::lemma_small_mod((r + d - m) as nat, m as nat);
    }
}

/// The stops run from dark to light: the sum of the components grows
/// strictly from each stop to the next, whatever the time.
pub proof fn palette_stops_get_lighter(t_ms: int)
    ensures
        color_sum(palette_spec(t_ms)[0]) < color_sum(palette_spec(t_ms)[1]),
        color_sum(palette_spec(t_ms)[1]) < color_sum(palette_spec(t_ms)[2]),
{
    let k: int = HUE_UNITS_PER_DEGREE as int;
    let base: int = base_hue_spec(t_ms % (DAY_MS as int));
    let offset: int = ANALOGOUS_OFFSET_DEG * HUE_UNITS_PER_DEGREE;
    lemma_hsl_color_parts(base - offset, 45, 28);
    lemma_hsl_color_parts(base, 45, 40);
    lemma_hsl_color_parts(base + offset, 45, 52);
    lemma_hue_ramp_lipschitz(base - offset, 0);
    lemma_hue_ramp_lipschitz(base, offset);
    lemma_hue_ramp_lipschitz(base + offset, 0);
    let w0 = hue_ramp(base - offset);
    let w1 = hue_ramp(base);
    let w2 = hue_ramp(base + offset);
    assert(offset == 28 * k);
    assert(w2 >= w1 - 28 * k);
    assert(lightness_span(28) == 56);
    assert(lightness_span(40) == 80);
    assert(lightness_span(52) == 96);
    assert(color_sum(palette_spec(t_ms)[0]) == 856800 * k + 5040 * w0);
    assert(color_sum(palette_spec(t_ms)[1]) == 1224000 * k + 7200 * w1);
    assert(color_sum(palette_spec(t_ms)[2]) == 1612800 * k + 8640 * w2);
}

/// The largest component of a colour.
pub open spec fn color_max(col: Color) -> int {
    let rg: int = if col.r >= col.g { col.r as int } else { col.g as int };
    if rg >= col.b { rg } else { col.b as int }
}

/// The smallest component of a colour.
pub open spec fn color_min(col: Color) -> int {
    let rg: int = if col.r <= col.g { col.r as int } else { col.g as int };
    if rg <= col.b { rg } else { col.b as int }
}

/// The hue (hue units, within one turn) of a colour whose largest component
/// exceeds its smallest, by the standard RGB to HSL conversion: by which
/// component is largest, `60 * (g - b) / d` (modulo 360), `60 * (b - r) / d
/// + 120` or `60 * (r - g) / d + 240` degrees, with `d` the largest minus
/// the smallest component.
pub open spec fn rgb_hue(col: Color) -> int {
    let d: int = color_max(col) - color_min(col);
    let k: int = HUE_UNITS_PER_DEGREE as int;
    if color_max(col) == col.r {
        (60 * k * (col.g - col.b) / d) % (FULL_TURN as int)
    } else if color_max(col) == col.g {
        60 * k * (col.b - col.r) / d + 120 * k
    } else {
        60 * k * (col.r - col.g) / d + 240 * k
    }
}

/// HSL to RGB loses nothing: converting the colour back gives the lightness
/// (the mean of the largest and the smallest component), the chroma
/// `(1 - |2l - 1|) s` (their difference, from which the saturation follows)
/// and, unless the colour is grey, the hue reduced to one turn.
pub proof fn hsl_color_inverts(h: int, s: int, l: int)
    requires
        0 <= s <= 100,
        0 <= l <= 100,
    ensures
        color_max(hsl_color(h, s, l)) + color_min(hsl_color(h, s, l)) == 2 * l * (COLOR_SCALE
            / 100),
        color_max(hsl_color(h, s, l)) - color_min(hsl_color(h, s, l)) == lightness_span(l) * s
            * (120 * HUE_UNITS_PER_DEGREE),
        color_max(hsl_color(h, s, l)) > color_min(hsl_color(h, s, l)) ==> rgb_hue(
            hsl_color(h, s, l),
        ) == h % (FULL_TURN as int),
{
    let k: int = HUE_UNITS_PER_DEGREE as int;
    let full: int = FULL_TURN as int;
    let hh: int = h % full;
    vstd::arithmetic::div_mod::lemma_mod_bound(h, full);
    lemma_hsl_parts(hh, s, l);
    let a: int = lightness_span(l);
    let c: int = a * s * (120 * k);
    let w: int = hue_ramp(hh);
    let x: int = a * s * 2 * w;
    if hh < 120 * k {
        vstd::arithmetic::div_mod::lemma_fundamental_div_mod_converse(hh, 120 * k, 0, hh);
    } else if hh < 240 * k {
        vstd::arithmetic::div_mod::lemma_fundamental_div_mod_converse(hh, 120 * k, 1, hh - 120 * k);
    } else {
        vstd::arithmetic::div_mod::lemma_fundamental_div_mod_converse(hh, 120 * k, 2, hh - 240 * k);
    }
    assert(60 * k * x == c * w) by (nonlinear_arith)
        requires
            x == a * s * 2 * w,
            c == a * s * (120 * k),
    ;
    assert(c * (-w) == -(c * w)) by (nonlinear_arith);
    let m: int = l * (12000 * k) - a * s * (60 * k);
    let col = hsl_color(h, s, l);
    assert(COLOR_SCALE / 100 == 12000 * k);
    assert(c + 2 * m == 2 * l * (12000 * k));
    assert(color_max(col) == c + m && color_min(col) == m);
    if c > 0 {
        assert(a * s > 0) by (nonlinear_arith)
            requires
                c == a * s * (120 * k),
                c > 0,
                k > 0,
        ;
        assert(w < 60 * k ==> x < c) by (nonlinear_arith)
            requires
                x == a * s * 2 * w,
                c == a * s * (120 * k),
                a * s > 0,
        ;
        vstd::arithmetic::div_mod::lemma_div_multiples_vanish(w, c);
        vstd::arithmetic::div_mod::lemma_div_multiples_vanish(-w, c);
        if hh < 60 * k {
            assert(col.r == c + m && col.g - col.b == x);
            assert(60 * k * (col.g - col.b) / (c + m - m) == w);
            vstd::arithmetic::div_mod::lemma_small_mod(w as nat, full as nat);
            assert(rgb_hue(col) == hh);
        } else if hh == 60 * k {
            assert(x == c) by (nonlinear_arith)
                requires
                    x == a * s * 2 * w,
                    c == a * s * (120 * k),
                    w == 60 * k,
            ;
            assert(col.r == c + m && col.g - col.b == c);
            assert(60 * k * (col.g - col.b) / (c + m - m) == w);
            vstd::arithmetic::div_mod::lemma_small_mod(w as nat, full as nat);
            assert(rgb_hue(col) == hh);
        } else if hh < 120 * k {
            assert(col.g == c + m && col.r < col.g && col.b - col.r == -x);
            assert(60 * k * (col.b - col.r) / (c + m - m) == -w);
            assert(rgb_hue(col) == hh);
        } else if hh < 180 * k {
            assert(col.g == c + m && col.r == m && col.b - col.r == x);
            assert(60 * k * (col.b - col.r) / (c + m - m) == w);
            assert(rgb_hue(col) == hh);
        } else if hh == 180 * k {
            assert(x == c) by (nonlinear_arith)
                requires
                    x == a * s * 2 * w,
                    c == a * s * (120 * k),
                    w == 60 * k,
            ;
            assert(col.g == c + m && col.b == c + m && col.r == m && col.b - col.r == c);
            assert(60 * k * (col.b - col.r) / (c + m - m) == w);
            assert(rgb_hue(col) == hh);
        } else if hh < 240 * k {
            assert(col.b == c + m && col.r - col.g == -x);
            assert(60 * k * (col.r - col.g) / (c + m - m) == -w);
            assert(rgb_hue(col) == hh);
        } else if hh < 300 * k {
            assert(col.b == c + m && col.r - col.g == x);
            assert(60 * k * (col.r - col.g) / (c + m - m) == w);
            assert(rgb_hue(col) == hh);
        } else {
            assert(col.r == c + m && col.g - col.b == -x);
            assert(60 * k * (col.g - col.b) / (c + m - m) == -w);
            vstd::arithmetic::div_mod::lemma_fundamental_div_mod_converse(-w, full, -1, hh);
            assert(rgb_hue(col) == hh);
        }
    }
}

/// The centre hue follows the keyframes of the day: night indigo (250) at
/// midnight, amber (35) at 06:00, sky blue (205) at noon, orange (25) at
/// 18:00 and indigo again at the end of the day; within each stretch it moves
/// at a steady pace along the shorter arc (+145, +170, +180 and -135
/// degrees), in hue units of `1 / SEGMENT_MS` degree per millisecond.
pub proof fn base_hue_follows_the_keyframes(t_ms: int)
    ensures
        0 <= t_ms <= SEGMENT_MS ==> base_hue_spec(t_ms) == (250 * SEGMENT_MS + 145 * t_ms) % (360
            * SEGMENT_MS),
        SEGMENT_MS <= t_ms <= 2 * SEGMENT_MS ==> base_hue_spec(t_ms) == (35 * SEGMENT_MS + 170 * (
        t_ms - SEGMENT_MS)) % (360 * SEGMENT_MS),
        2 * SEGMENT_MS <= t_ms <= 3 * SEGMENT_MS ==> base_hue_spec(t_ms) == (205 * SEGMENT_MS + 180
            * (t_ms - 2 * SEGMENT_MS)) % (360 * SEGMENT_MS),
        3 * SEGMENT_MS <= t_ms <= 4 * SEGMENT_MS ==> base_hue_spec(t_ms) == (25 * SEGMENT_MS - 135
            * (t_ms - 3 * SEGMENT_MS)) % (360 * SEGMENT_MS),
        t_ms > 4 * SEGMENT_MS ==> base_hue_spec(t_ms) == 250 * HUE_UNITS_PER_DEGREE,
        base_hue_spec(0) == 250 * HUE_UNITS_PER_DEGREE,
        base_hue_spec(SEGMENT_MS as int) == 35 * HUE_UNITS_PER_DEGREE,
        base_hue_spec(2 * SEGMENT_MS) == 205 * HUE_UNITS_PER_DEGREE,
        base_hue_spec(3 * SEGMENT_MS) == 25 * HUE_UNITS_PER_DEGREE,
        base_hue_spec(4 * SEGMENT_MS) == 250 * HUE_UNITS_PER_DEGREE,
{
    let q: int = SEGMENT_MS as int;
    vstd::arithmetic::div_mod::lemma_fundamental_div_mod_converse(755, 360, 2, 35);
    vstd::arithmetic::div_mod::lemma_fundamental_div_mod_converse(710, 360, 1, 350);
    vstd::arithmetic::div_mod::lemma_fundamental_div_mod_converse(720, 360, 2, 0);
    vstd::arithmetic::div_mod::lemma_fundamental_div_mod_converse(315, 360, 0, 315);
    assert(shortest_turn(250, 35) == 145);
    assert(shortest_turn(35, 205) == 170);
    assert(shortest_turn(205, 25) == 180);
    assert(shortest_turn(25, 250) == -135);
    assert(keyframe_time(1) == q);
    assert(keyframe_time(2) == 2 * q);
    assert(keyframe_time(3) == 3 * q);
    vstd::arithmetic::div_mod::lemma_fundamental_div_mod_converse(250 * q, 360 * q, 0, 250 * q);
    vstd::arithmetic::div_mod::lemma_fundamental_div_mod_converse(395 * q, 360 * q, 1, 35 * q);
    vstd::arithmetic::div_mod::lemma_fundamental_div_mod_converse(205 * q, 360 * q, 0, 205 * q);
    vstd::arithmetic::div_mod::lemma_fundamental_div_mod_converse(385 * q, 360 * q, 1, 25 * q);
    vstd::arithmetic::div_mod::lemma_fundamental_div_mod_converse(25 * q, 360 * q, 0, 25 * q);
    vstd::arithmetic::div_mod::lemma_fundamental_div_mod_converse(35 * q, 360 * q, 0, 35 * q);
    vstd::arithmetic::div_mod::lemma_fundamental_div_mod_converse(-110 * q, 360 * q, -1, 250 * q);
    day_closes_where_it_began();
    if 3 * q < t_ms <= 4 * q {
        assert(base_hue_spec(t_ms) == lerp_hue_spec(25, 250, t_ms - 3 * q, q));
        assert(lerp_hue_spec(25, 250, t_ms - 3 * q, q) == (25 * q + (-135) * (t_ms - 3 * q)) % (360
            * q));
    }
}

/// Each stop of the palette is the colour of the hue, saturation and
/// lightness it is meant to have: converted back, stop `i` has lightness
/// 28, 40 or 52 percent, the chroma of 45 percent saturation at that
/// lightness, and the centre hue of the time moved by -28, 0 or +28 degrees.
pub proof fn palette_stops_have_their_hsl(t_ms: int)
    ensures
        ({
            let centre = base_hue_spec(t_ms % DAY_MS as int);
            let p = palette_spec(t_ms);
            let k = HUE_UNITS_PER_DEGREE as int;
            &&& p.len() == 3
            &&& color_max(p[0]) + color_min(p[0]) == 2 * 28 * (COLOR_SCALE / 100)
            &&& color_max(p[1]) + color_min(p[1]) == 2 * 40 * (COLOR_SCALE / 100)
            &&& color_max(p[2]) + color_min(p[2]) == 2 * 52 * (COLOR_SCALE / 100)
            &&& color_max(p[0]) - color_min(p[0]) == 56 * 45 * (120 * k)
            &&& color_max(p[1]) - color_min(p[1]) == 80 * 45 * (120 * k)
            &&& color_max(p[2]) - color_min(p[2]) == 96 * 45 * (120 * k)
            &&& rgb_hue(p[0]) == (centre - 28 * k) % (FULL_TURN as int)
            &&& rgb_hue(p[1]) == centre % (FULL_TURN as int)
            &&& rgb_hue(p[2]) == (centre + 28 * k) % (FULL_TURN as int)
        }),
{
    let centre = base_hue_spec(t_ms % DAY_MS as int);
    let k = HUE_UNITS_PER_DEGREE as int;
    hsl_color_inverts(centre - 28 * k, 45, 28);
    hsl_color_inverts(centre, 45, 40);
    hsl_color_inverts(centre + 28 * k, 45, 52);
    assert(lightness_span(28) == 56);
    assert(lightness_span(40) == 80);
    assert(lightness_span(52) == 96);
}

/// Interpolation moves at a steady pace: one more step along the span turns
/// the hue by the shorter turn once more (in units of `1 / span` degree,
/// within one turn).
pub proof fn lerp_hue_moves_steadily(a: int, b: int, step: int, span: int)
    requires
        span > 0,
    ensures
        lerp_hue_spec(a, b, step + 1, span) == (lerp_hue_spec(a, b, step, span) + shortest_turn(a, b))
            % (360 * span),
{
    let m: int = 360 * span;
    let x: int = a * span + shortest_turn(a, b) * step;
    let t: int = shortest_turn(a, b);
    assert(a * span + t * (step + 1) == x + t) by (nonlinear_arith)
        requires
            x == a * span + t * step,
    ;
    vstd::arithmetic::div_mod::lemma_fundamental_div_mod(x, m);
    assert(x + shortest_turn(a, b) == (x % m + shortest_turn(a, b)) + (x / m) * m) by (nonlinear_arith)
        requires
            x == m * (x / m) + x % m,
    ;
    lemma_mod_congruent(x + shortest_turn(a, b), x % m + shortest_turn(a, b), x / m, m);
}

} // verus!
