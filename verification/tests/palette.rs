use nagi_core::palette::{
    base_hue, hsl_to_rgb, lerp_hue, palette_for, Color, COLOR_SCALE, DAY_MS,
    HUE_UNITS_PER_DEGREE,
};

fn approx(a: f64, b: f64) -> bool {
    (a - b).abs() < 1e-6
}

/// Degrees to hue units.
fn hue(deg: f64) -> i64 {
    (deg * HUE_UNITS_PER_DEGREE as f64).round() as i64
}

/// Hue units to degrees.
fn deg(h: i64) -> f64 {
    h as f64 / HUE_UNITS_PER_DEGREE as f64
}

/// A fraction of the range in percent.
fn pct(x: f64) -> u64 {
    (x * 100.0).round() as u64
}

/// A fraction of the day in milliseconds after midnight.
fn day(frac: f64) -> i64 {
    (frac * DAY_MS as f64).round() as i64
}

fn unit(v: u64) -> f64 {
    v as f64 / COLOR_SCALE as f64
}

struct Rgb {
    r: f64,
    g: f64,
    b: f64,
}

fn rgb(c: &Color) -> Rgb {
    Rgb { r: unit(c.r), g: unit(c.g), b: unit(c.b) }
}

#[test]
fn hsl_to_rgb_primaries() {
    let red = rgb(&hsl_to_rgb(hue(0.0), pct(1.0), pct(0.5)));
    assert!(approx(red.r, 1.0) && approx(red.g, 0.0) && approx(red.b, 0.0));
    let green = rgb(&hsl_to_rgb(hue(120.0), pct(1.0), pct(0.5)));
    assert!(approx(green.r, 0.0) && approx(green.g, 1.0) && approx(green.b, 0.0));
    let blue = rgb(&hsl_to_rgb(hue(240.0), pct(1.0), pct(0.5)));
    assert!(approx(blue.r, 0.0) && approx(blue.g, 0.0) && approx(blue.b, 1.0));
}

#[test]
fn hsl_zero_saturation_is_gray() {
    let gray = rgb(&hsl_to_rgb(hue(123.0), pct(0.0), pct(0.5)));
    assert!(approx(gray.r, 0.5) && approx(gray.g, 0.5) && approx(gray.b, 0.5));
}

#[test]
fn lerp_hue_takes_shortest_arc_across_zero() {
    // From 350 to 10 the way crosses 0 (+20), so half way is 0 (= 360).
    let mid = lerp_hue(350, 10, 1, 2) as f64 / 2.0;
    assert!(approx(mid, 0.0) || approx(mid, 360.0));
}

#[test]
fn base_hue_matches_keyframes() {
    let at = |frac: f64| deg(base_hue(day(frac) as u64));
    assert!(approx(at(0.0), 250.0));
    assert!(approx(at(0.25), 35.0));
    assert!(approx(at(0.5), 205.0));
    assert!(approx(at(0.75), 25.0));
    assert!(approx(at(1.0), 250.0));
}

#[test]
fn base_hue_is_continuous_across_midnight() {
    // Just before the end of the day the hue is close to the night indigo.
    let before_midnight = deg(base_hue(day(0.999) as u64));
    assert!((before_midnight - 250.0).abs() < 2.0);
}

#[test]
fn palette_has_three_stops_in_unit_range() {
    for i in 0..=100 {
        let p = palette_for(day(f64::from(i) / 100.0));
        assert_eq!(p.stops.len(), 3);
        for c in &p.stops {
            let c = rgb(c);
            assert!(c.r >= 0.0 && c.r <= 1.0, "r out of range: {}", c.r);
            assert!(c.g >= 0.0 && c.g <= 1.0, "g out of range: {}", c.g);
            assert!(c.b >= 0.0 && c.b <= 1.0, "b out of range: {}", c.b);
        }
    }
}

#[test]
fn morning_is_warm_midday_is_cool() {
    // Morning (amber) has more red than blue; midday (sky blue) the reverse.
    let morning = palette_for(day(0.25)).stops[1];
    assert!(morning.r > morning.b, "morning should be warm: {morning:?}");
    let midday = palette_for(day(0.5)).stops[1];
    assert!(midday.b > midday.r, "midday should be cool: {midday:?}");
}

#[test]
fn palette_is_cyclic_over_one_day() {
    assert_eq!(palette_for(day(0.0)), palette_for(day(1.0)));
}

#[test]
fn stops_are_ordered_dark_to_light() {
    // Lightness grows from front to back: the sum of the components of each
    // stop increases.
    let p = palette_for(day(0.5));
    let lum = |c: &Color| c.r + c.g + c.b;
    assert!(lum(&p.stops[0]) < lum(&p.stops[1]));
    assert!(lum(&p.stops[1]) < lum(&p.stops[2]));
}
