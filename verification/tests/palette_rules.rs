use nagi_core::palette::{
    base_hue, hsl_to_rgb, lerp_hue, palette_for, Color, COLOR_SCALE, DAY_MS, FULL_TURN,
    HUE_UNITS_PER_DEGREE, SEGMENT_MS,
};

const K: i64 = HUE_UNITS_PER_DEGREE;

#[test]
fn primaries_are_exact() {
    assert_eq!(hsl_to_rgb(0, 100, 50), Color { r: COLOR_SCALE, g: 0, b: 0 });
    assert_eq!(hsl_to_rgb(120 * K, 100, 50), Color { r: 0, g: COLOR_SCALE, b: 0 });
    assert_eq!(hsl_to_rgb(240 * K, 100, 50), Color { r: 0, g: 0, b: COLOR_SCALE });
    // Secondary colours at the peaks of the wave.
    assert_eq!(hsl_to_rgb(60 * K, 100, 50), Color { r: COLOR_SCALE, g: COLOR_SCALE, b: 0 });
    // Hues are taken modulo a full turn, negative ones included.
    assert_eq!(hsl_to_rgb(-120 * K, 100, 50), hsl_to_rgb(240 * K, 100, 50));
    assert_eq!(hsl_to_rgb(FULL_TURN, 100, 50), hsl_to_rgb(0, 100, 50));
}

#[test]
fn zero_saturation_is_grey_for_every_hue() {
    for h in [-7 * K, 0, 33 * K, 123 * K, 359 * K] {
        for l in [0u64, 28, 50, 100] {
            let c = hsl_to_rgb(h, 0, l);
            assert_eq!(c.r, l * (COLOR_SCALE / 100));
            assert_eq!(c.g, c.r);
            assert_eq!(c.b, c.r);
        }
    }
}

#[test]
fn lerp_reaches_both_ends_on_the_short_way() {
    assert_eq!(lerp_hue(350, 10, 0, 4), 350 * 4);
    assert_eq!(lerp_hue(350, 10, 4, 4), 10 * 4);
    // A quarter of the way from 350 to 10 is 355 degrees.
    assert_eq!(lerp_hue(350, 10, 1, 4), 355 * 4);
    // From 10 to 350 the way goes backwards through 0.
    assert_eq!(lerp_hue(10, 350, 1, 4), 5 * 4);
    // Exactly opposite hues turn forward by half a circle.
    assert_eq!(lerp_hue(205, 25, 1, 2), 295 * 2);
    assert_eq!(lerp_hue(0, 180, 1, 2), 90 * 2);
    assert_eq!(lerp_hue(180, 0, 1, 2), 270 * 2);
}

#[test]
fn base_hue_stays_within_a_turn_and_closes_the_day() {
    assert_eq!(base_hue(0), 250 * K);
    assert_eq!(base_hue(DAY_MS as u64), 250 * K);
    // Past the end of the day the hue of midnight is used.
    assert_eq!(base_hue(DAY_MS as u64 + 1), 250 * K);
    // Morning to midday is a turn of 170 degrees: half way is 120 degrees.
    assert_eq!(base_hue(SEGMENT_MS + SEGMENT_MS / 2), 120 * K);
    // Midday (205) to evening (25) is exactly opposite: the turn is forward,
    // through magenta, so half way (0.625 of the day) is 295 degrees.
    assert_eq!(base_hue(2 * SEGMENT_MS + SEGMENT_MS / 2), 295 * K);
    for t in (0..=DAY_MS as u64).step_by(1_000_003) {
        let h = base_hue(t);
        assert!(0 <= h && h < FULL_TURN);
    }
}

#[test]
fn palette_repeats_every_day_and_accepts_any_time() {
    for t in [0i64, 1, 12_345_678, DAY_MS / 2, DAY_MS - 1] {
        assert_eq!(palette_for(t), palette_for(t + DAY_MS));
        assert_eq!(palette_for(t), palette_for(t - 3 * DAY_MS));
    }
}

#[test]
fn stops_get_lighter_at_every_sampled_time() {
    let lum = |c: &Color| c.r + c.g + c.b;
    for t in (0..DAY_MS).step_by(432_001) {
        let p = palette_for(t);
        assert_eq!(p.stops.len(), 3);
        assert!(lum(&p.stops[0]) < lum(&p.stops[1]));
        assert!(lum(&p.stops[1]) < lum(&p.stops[2]));
        for c in &p.stops {
            assert!(c.r <= COLOR_SCALE && c.g <= COLOR_SCALE && c.b <= COLOR_SCALE);
        }
    }
}

#[test]
fn centre_stop_uses_the_centre_hue() {
    // At midday the centre hue is 205 degrees: sky blue, blue strongest.
    let p = palette_for(DAY_MS / 2);
    assert_eq!(p.stops[1], hsl_to_rgb(205 * K, 45, 40));
    assert_eq!(p.stops[0], hsl_to_rgb(177 * K, 45, 28));
    assert_eq!(p.stops[2], hsl_to_rgb(233 * K, 45, 52));
}

#[test]
fn hsl_conversion_can_be_inverted() {
    let full = FULL_TURN as i128;
    for h in [-30 * K, 0, 17 * K, 60 * K, 95 * K, 180 * K, 205 * K, 250 * K, 300 * K, 359 * K] {
        for (s, l) in [(45u64, 28u64), (45, 40), (45, 52), (100, 50), (30, 90)] {
            let c = hsl_to_rgb(h, s, l);
            let (r, g, b) = (c.r as i128, c.g as i128, c.b as i128);
            let mx = r.max(g).max(b);
            let mn = r.min(g).min(b);
            let span = 100 - (2 * l as i128 - 100).abs();
            assert_eq!(mx + mn, 2 * l as i128 * (COLOR_SCALE as i128 / 100));
            assert_eq!(mx - mn, span * s as i128 * 120 * K as i128);
            let d = mx - mn;
            let k = K as i128;
            let hue = if mx == r {
                (60 * k * (g - b) / d).rem_euclid(full)
            } else if mx == g {
                60 * k * (b - r) / d + 120 * k
            } else {
                60 * k * (r - g) / d + 240 * k
            };
            assert_eq!(hue, (h as i128).rem_euclid(full));
        }
    }
}
