use pixelsort::args::{Method, Mode, BLACK_VALUE, BRIGHT_VALUE, DARK_VALUE, WHITE_VALUE};
use pixelsort::color::{Color, Fraction, SingleColor};
use pixelsort::metric::{Metric, UnmappedMethodError};
use pixelsort::pixel::Pixel;
use std::cmp::Ordering;

const WHITE: [u8; 4] = [255; 4];
const BLACK: [u8; 4] = [0, 0, 0, 255];
const RED: [u8; 4] = [255, 0, 0, 255];
const GREEN: [u8; 4] = [0, 255, 0, 255];
const BLUE: [u8; 4] = [0, 0, 255, 255];
const CYAN: [u8; 4] = [0, 255, 255, 255];

fn value(f: Fraction) -> f32 {
    f.num as f32 / f.den as f32
}

fn rgb(r: u8, g: u8, b: u8) -> Color {
    Color { r, g, b, a: 255 }
}

#[test]
fn test_get_hsla() {
    let (hue, saturation, lightness, alpha) = WHITE.get_hsla();
    assert_eq!((hue, value(saturation), value(lightness), alpha), (0, 0.0, 1.0, 255));
    let (hue, saturation, lightness, alpha) = BLACK.get_hsla();
    assert_eq!((hue, value(saturation), value(lightness), alpha), (0, 0.0, 0.0, 255));
    let (hue, saturation, lightness, alpha) = RED.get_hsla();
    assert_eq!((hue, value(saturation), value(lightness), alpha), (0, 1.0, 0.5, 255));
    let (_, saturation, lightness, alpha) = GREEN.get_hsla();
    assert_eq!((value(saturation), value(lightness), alpha), (1.0, 0.5, 255));
    let (_, saturation, lightness, alpha) = BLUE.get_hsla();
    assert_eq!((value(saturation), value(lightness), alpha), (1.0, 0.5, 255));
    let (_, saturation, lightness, alpha) = CYAN.get_hsla();
    assert_eq!((value(saturation), value(lightness), alpha), (1.0, 0.5, 255));
}

#[test]
fn full_chroma_falls_in_the_first_sector_whatever_channel_leads() {
    // Chroma 1 is above 1/2, so the red channel's distance to the largest decides.
    assert_eq!(RED.get_hue(), 0);
    assert_eq!(GREEN.get_hue(), 60);
    assert_eq!(BLUE.get_hue(), 60);
    assert_eq!(CYAN.get_hue(), 60);
}

#[test]
fn hsla_keeps_exact_fractions() {
    assert_eq!(
        WHITE.get_hsla(),
        (0, Fraction { num: 0, den: 1 }, Fraction { num: 510, den: 510 }, 255)
    );
    assert_eq!(
        RED.get_hsla(),
        (0, Fraction { num: 255, den: 255 }, Fraction { num: 255, den: 510 }, 255)
    );
    assert_eq!(
        [10u8, 40, 20, 7].get_hsla(),
        (420, Fraction { num: 30, den: 50 }, Fraction { num: 50, den: 510 }, 7)
    );
}

#[test]
fn luminance_weighs_the_channels_and_rounds_down() {
    assert_eq!(WHITE.get_luminance(), 255);
    assert_eq!(BLACK.get_luminance(), 0);
    assert_eq!(RED.get_luminance(), 54);
    assert_eq!(GREEN.get_luminance(), 182);
    assert_eq!(BLUE.get_luminance(), 18);
    assert_eq!(rgb(10, 20, 30).get_luminance(), 18);
    assert_eq!(rgb(100, 150, 200).get_luminance(), 142);
}

#[test]
fn luminance_of_a_grey_is_its_level() {
    // The three weights add up to one, so nothing is lost on a grey.
    for level in 0..=255u8 {
        assert_eq!(rgb(level, level, level).get_luminance(), level as u32);
    }
}

#[test]
fn luminance_never_exceeds_the_exact_weighted_sum() {
    for r in (0..=255u32).step_by(5) {
        for g in (0..=255u32).step_by(3) {
            for b in (0..=255u32).step_by(17) {
                let l = rgb(r as u8, g as u8, b as u8).get_luminance();
                let sum = 2126 * r + 7152 * g + 722 * b;
                assert!(l * 10000 <= sum && sum < (l + 1) * 10000);
            }
        }
    }
}

#[test]
fn absolute_is_the_product_of_the_channels() {
    assert_eq!(WHITE.get_absolute(), 16_581_375);
    assert_eq!(BLACK.get_absolute(), 0);
    assert_eq!(RED.get_absolute(), 0);
    assert_eq!(BLUE.get_absolute(), 0);
    assert_eq!(rgb(2, 3, 5).get_absolute(), 30);
    assert_eq!(rgb(255, 255, 1).get_absolute(), 65_025);
}

#[test]
fn hue_sector_goes_by_the_size_of_the_chroma() {
    // Chroma above 1/2: the distance of red to the largest channel.
    assert_eq!(rgb(200, 0, 100).get_hue(), 0);
    assert_eq!(rgb(100, 200, 0).get_hue(), 30);
    assert_eq!(rgb(0, 200, 100).get_hue(), 60);
    assert_eq!(rgb(0, 128, 0).get_hue(), 60);
    // Chroma above 1/4 and at most 1/2: the distance of green, from 120 on.
    assert_eq!(rgb(50, 150, 100).get_hue(), 120);
    assert_eq!(rgb(150, 100, 50).get_hue(), 150);
    assert_eq!(rgb(150, 50, 100).get_hue(), 180);
    assert_eq!(rgb(0, 127, 0).get_hue(), 120);
    assert_eq!(rgb(64, 0, 0).get_hue(), 180);
    // Chroma at most 1/4: the distance of red, from 360 on, never wrapped.
    assert_eq!(rgb(40, 10, 20).get_hue(), 360);
    assert_eq!(rgb(25, 40, 10).get_hue(), 390);
    assert_eq!(rgb(10, 40, 20).get_hue(), 420);
    assert_eq!(rgb(0, 63, 0).get_hue(), 420);
}

#[test]
fn hue_rounds_down() {
    // 60 * 101 / 201 = 30.14.. and 60 * 100 / 201 = 29.85..
    assert_eq!(rgb(100, 201, 0).get_hue(), 30);
    assert_eq!(rgb(101, 201, 0).get_hue(), 29);
    // 60 * 1 / 7 = 8.57..
    assert_eq!(rgb(6, 7, 0).get_hue(), 368);
}

#[test]
fn hue_stays_in_its_three_bands() {
    for r in (0..=255u32).step_by(5) {
        for g in (0..=255u32).step_by(3) {
            for b in (0..=255u32).step_by(17) {
                let hue = rgb(r as u8, g as u8, b as u8).get_hue();
                assert!(hue <= 60 || (120..=180).contains(&hue) || (360..=420).contains(&hue));
            }
        }
    }
}

#[test]
fn achromatic_colours_have_no_hue_and_no_saturation() {
    for level in [0u8, 1, 100, 127, 128, 254, 255] {
        let (hue, saturation, lightness, _) = rgb(level, level, level).get_hsla();
        assert_eq!(hue, 0);
        assert_eq!(saturation, Fraction { num: 0, den: 1 });
        assert_eq!(lightness, Fraction { num: 2 * level as u32, den: 510 });
    }
}

#[test]
fn saturation_divides_by_the_nearer_end_of_the_scale() {
    // Lightness under 1/2: chroma over the sum of largest and smallest.
    assert_eq!(rgb(10, 40, 20).get_saturation(), Fraction { num: 30, den: 50 });
    assert_eq!(rgb(0, 254, 0).get_saturation(), Fraction { num: 254, den: 254 });
    // Lightness of 1/2 and more: chroma over what the sum lacks to 2.
    assert_eq!(rgb(255, 128, 128).get_saturation(), Fraction { num: 127, den: 127 });
    assert_eq!(rgb(200, 250, 225).get_saturation(), Fraction { num: 50, den: 60 });
    assert_eq!(rgb(255, 0, 0).get_saturation(), Fraction { num: 255, den: 255 });
}

#[test]
fn saturation_and_lightness_lie_between_zero_and_one() {
    for r in (0..=255u32).step_by(5) {
        for g in (0..=255u32).step_by(3) {
            for b in (0..=255u32).step_by(17) {
                let (_, s, l, _) = rgb(r as u8, g as u8, b as u8).get_hsla();
                assert!(s.den > 0 && s.num <= s.den);
                assert!(l.den > 0 && l.num <= l.den);
            }
        }
    }
}

#[test]
fn hue_and_saturation_are_parts_of_hsla() {
    for c in [rgb(10, 40, 20), rgb(150, 50, 100), rgb(0, 255, 255), rgb(9, 9, 9)] {
        let (hue, saturation, _, _) = c.get_hsla();
        assert_eq!(c.get_hue(), hue);
        assert_eq!(c.get_saturation(), saturation);
    }
}

#[test]
fn alpha_plays_no_part_in_the_metrics() {
    let solid = Color { r: 90, g: 10, b: 200, a: 255 };
    let clear = Color { r: 90, g: 10, b: 200, a: 0 };
    assert_eq!(solid.get_luminance(), clear.get_luminance());
    assert_eq!(solid.get_absolute(), clear.get_absolute());
    assert_eq!(solid.get_hue(), clear.get_hue());
    assert_eq!(solid.get_saturation(), clear.get_saturation());
    assert_eq!(solid.get_hsla().3, 255);
    assert_eq!(clear.get_hsla().3, 0);
}

#[test]
fn metrics_are_those_of_the_colour_wherever_the_pixel_stands() {
    let color = rgb(90, 10, 200);
    let here = Pixel { x: 0, y: 0, color };
    let there = Pixel { x: 731, y: 12, color };
    assert_eq!(here.get_rgba(), color);
    assert_eq!(here.get_luminance(), color.get_luminance());
    assert_eq!(here.get_luminance(), there.get_luminance());
    assert_eq!(here.get_absolute(), there.get_absolute());
    assert_eq!(here.get_hsla(), there.get_hsla());
    assert_eq!(here.get_hsla(), here.get_hsla());
    assert_eq!([90u8, 10, 200, 255].get_rgba(), color);
}

#[test]
fn each_metric_measures_its_own_key() {
    let c = rgb(10, 40, 20);
    assert_eq!(Metric::Luminance.measure(&c), 32);
    assert_eq!(Metric::Absolute.measure(&c), 8000);
    assert_eq!(Metric::Hue.measure(&c), 420);
}

#[test]
fn compare_orders_pixels_by_key_alone() {
    let dark = Pixel { x: 5, y: 5, color: rgb(0, 0, 0) };
    let light = Pixel { x: 0, y: 0, color: rgb(255, 255, 255) };
    let red = Pixel { x: 1, y: 0, color: rgb(255, 0, 0) };
    let blue = Pixel { x: 0, y: 1, color: rgb(0, 0, 255) };
    assert_eq!(Metric::Luminance.compare(&dark, &light), Ordering::Less);
    assert_eq!(Metric::Luminance.compare(&light, &dark), Ordering::Greater);
    assert_eq!(Metric::Luminance.compare(&light, &light), Ordering::Equal);
    assert_eq!(Metric::Absolute.compare(&red, &blue), Ordering::Equal);
    assert_eq!(Metric::Luminance.compare(&red, &blue), Ordering::Greater);
    assert_eq!(Metric::Hue.compare(&red, &blue), Ordering::Less);
}

#[test]
fn every_method_but_hsl_has_a_metric() {
    assert_eq!(Method::Luminance.metric(), Ok(Metric::Luminance));
    assert_eq!(Method::Absolute.metric(), Ok(Metric::Absolute));
    assert_eq!(Method::Hue.metric(), Ok(Metric::Hue));
    assert_eq!(Method::Hsl.metric(), Err(UnmappedMethodError { method: Method::Hsl }));
}

#[test]
fn defaults_are_white_and_hue() {
    assert_eq!(Mode::default(), Mode::White);
    assert_eq!(Method::default(), Method::Hue);
}

#[test]
fn cut_offs_keep_their_values() {
    assert_eq!(WHITE_VALUE, -12345678);
    assert_eq!(BLACK_VALUE, -3456789);
    assert_eq!(BRIGHT_VALUE, 127);
    assert_eq!(DARK_VALUE, 223);
}

fn luminance_in_single_precision(c: Color) -> u32 {
    (0.2126 * c.r as f32 + 0.7152 * c.g as f32 + 0.0722 * c.b as f32) as u32
}

fn hue_in_single_precision(c: Color) -> u32 {
    let (r, g, b) = (c.r as f32 / 255.0, c.g as f32 / 255.0, c.b as f32 / 255.0);
    let top = r.max(g).max(b);
    let chroma = top - r.min(g).min(b);
    let sector = if chroma == 0.0 {
        0.0
    } else if chroma > 0.5 {
        (top - r) / chroma
    } else if chroma > 0.25 {
        (top - g) / chroma + 2.0
    } else if chroma > 0.75 {
        (top - b) / chroma + 4.0
    } else {
        (top - r) / chroma + 6.0
    };
    (sector * 60.0) as u32
}

#[test]
fn luminance_is_exact_where_single_precision_falls_short() {
    // 13 * (0.2126 + 0.7152 + 0.0722) is 13, which rounding in between misses from below.
    assert_eq!(luminance_in_single_precision(rgb(13, 13, 13)), 12);
    assert_eq!(rgb(13, 13, 13).get_luminance(), 13);
    for r in (0..=255u32).step_by(3) {
        for g in (0..=255u32).step_by(3) {
            for b in (0..=255u32).step_by(3) {
                let c = rgb(r as u8, g as u8, b as u8);
                let exact = c.get_luminance();
                let rounded = luminance_in_single_precision(c);
                assert!(exact == rounded || exact == rounded + 1);
                assert_eq!(exact, (2126 * r + 7152 * g + 722 * b) / 10000);
            }
        }
    }
}

#[test]
fn hue_is_exact_where_single_precision_falls_short() {
    // 60 * (96 - 32) / 96 + 120 is 160, which rounding in between misses from below.
    assert_eq!(hue_in_single_precision(rgb(0, 32, 96)), 159);
    assert_eq!(rgb(0, 32, 96).get_hue(), 160);
    for r in (0..=255u32).step_by(3) {
        for g in (0..=255u32).step_by(3) {
            for b in (0..=255u32).step_by(3) {
                let c = rgb(r as u8, g as u8, b as u8);
                let exact = c.get_hue();
                let rounded = hue_in_single_precision(c);
                assert!(exact == rounded || exact == rounded + 1);
            }
        }
    }
}
