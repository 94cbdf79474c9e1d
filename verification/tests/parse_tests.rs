//! Parsing of colour text and keywords.

use canvas2d::blend::BlendMode;
use canvas2d::error::SkError;
use canvas2d::paint::Rgba;
use canvas2d::pattern::Pattern;
use canvas2d::style::{FillType, StrokeCap, StrokeJoin};

#[test]
fn from_color_parses_hex_colours() {
    match Pattern::from_color("#ff0000").unwrap() {
        Pattern::Color(c, text) => {
            assert_eq!(c, Rgba { red: 255, green: 0, blue: 0, alpha: 255 });
            assert_eq!(text, "#ff0000");
        },
        other => panic!("unexpected pattern {:?}", other),
    }
    match Pattern::from_color("#0f0").unwrap() {
        Pattern::Color(c, _) => {
            assert_eq!(c, Rgba { red: 0, green: 255, blue: 0, alpha: 255 });
        },
        other => panic!("unexpected pattern {:?}", other),
    }
}

#[test]
fn from_color_parses_functional_and_named_colours() {
    match Pattern::from_color("rgb(1, 2, 3)").unwrap() {
        Pattern::Color(c, _) => assert_eq!(c, Rgba { red: 1, green: 2, blue: 3, alpha: 255 }),
        other => panic!("unexpected pattern {:?}", other),
    }
    match Pattern::from_color("rgba(10, 20, 30, 0.5)").unwrap() {
        Pattern::Color(c, _) => {
            assert_eq!((c.red, c.green, c.blue), (10, 20, 30));
            assert_eq!(c.alpha, 128);
        },
        other => panic!("unexpected pattern {:?}", other),
    }
    match Pattern::from_color("red").unwrap() {
        Pattern::Color(c, _) => assert_eq!(c, Rgba { red: 255, green: 0, blue: 0, alpha: 255 }),
        other => panic!("unexpected pattern {:?}", other),
    }
}

#[test]
fn from_color_rejects_current_color_and_garbage() {
    assert_eq!(Pattern::from_color("currentcolor").unwrap_err(), SkError::Validation);
    assert_eq!(Pattern::from_color("definitely not a colour").unwrap_err(), SkError::Parse);
    assert_eq!(Pattern::from_color("").unwrap_err(), SkError::Parse);
}

#[test]
fn image_pattern_constructor_is_unsupported() {
    assert_eq!(Pattern::from_image_pattern().unwrap_err(), SkError::Unsupported);
}

#[test]
fn fill_rule_keywords() {
    assert_eq!(FillType::from_str("nonzero").unwrap(), FillType::Winding);
    assert_eq!(FillType::from_str("evenodd").unwrap(), FillType::EvenOdd);
    assert_eq!(FillType::from_str("even-odd").unwrap_err(), SkError::Parse);
}

#[test]
fn stroke_cap_keywords_round_trip() {
    for kw in ["butt", "round", "square"] {
        assert_eq!(StrokeCap::from_str(kw).unwrap().as_str(), kw);
    }
    assert_eq!(StrokeCap::from_str("pointy").unwrap_err(), SkError::Parse);
}

#[test]
fn stroke_join_keywords_round_trip() {
    for kw in ["miter", "round", "bevel"] {
        assert_eq!(StrokeJoin::from_str(kw).unwrap().as_str(), kw);
    }
    assert_eq!(StrokeJoin::from_str("sharp").unwrap_err(), SkError::Parse);
}

#[test]
fn blend_mode_keywords_round_trip_both_ways() {
    let keywords = [
        "clear", "color", "color-burn", "color-dodge", "darken", "destination",
        "destination-atop", "destination-in", "destination-out", "destination-over",
        "difference", "exclusion", "hard-light", "hue", "lighten", "luminosity", "modulate",
        "multiply", "overlay", "plus", "saturation", "screen", "soft-light", "source",
        "source-atop", "source-in", "source-out", "source-over", "xor",
    ];
    for kw in keywords {
        let mode = BlendMode::from_str(kw).unwrap();
        assert_eq!(mode.as_str(), kw);
    }
    assert_eq!(BlendMode::from_str("normal").unwrap_err(), SkError::Parse);
    assert_eq!(BlendMode::from_str("").unwrap_err(), SkError::Parse);
}

#[test]
fn blend_mode_parse_distinguishes_near_keywords() {
    assert_eq!(BlendMode::from_str("color").unwrap(), BlendMode::Color);
    assert_eq!(BlendMode::from_str("clear").unwrap(), BlendMode::Clear);
    assert_eq!(BlendMode::from_str("source").unwrap(), BlendMode::Source);
    assert_eq!(BlendMode::from_str("screen").unwrap(), BlendMode::Screen);
}
