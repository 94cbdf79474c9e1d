//! The building blocks: scalars, alpha composition, paths, paints,
//! gradients and surfaces.

use canvas2d::alpha::{mul_alpha, AlphaValue};
use canvas2d::canvas::{CanvasOp, Surface};
use canvas2d::ctx::Context;
use canvas2d::error::SkError;
use canvas2d::gradient::CanvasGradient;
use canvas2d::matrix::Matrix;
use canvas2d::paint::{Color, MaskFilter, PathEffect, Rgba, Shader};
use canvas2d::path::{Path, PathCmd};
use canvas2d::pattern::Pattern;
use canvas2d::scalar::Scalar;
use canvas2d::style::{AlphaType, FillType, PathOp};

fn sc(x: f32) -> Scalar {
    Scalar::from_bits(x.to_bits())
}

#[test]
fn scalar_zero_test_matches_ieee_comparison() {
    assert!(sc(0.0).is_zero());
    assert!(sc(-0.0).is_zero());
    assert!(!sc(1.0e-40).is_zero());
    assert!(!sc(f32::NAN).is_zero());
}

#[test]
fn scalar_negation_flips_the_sign_bit() {
    assert_eq!(sc(3.0).neg(), sc(-3.0));
    assert_eq!(sc(-0.5).neg(), sc(0.5));
    assert_eq!(sc(0.0).neg(), sc(-0.0));
}

#[test]
fn scalar_half_matches_hardware_division_by_two() {
    for x in [
        5.0f32,
        2.5,
        1.0,
        0.75,
        1.0e-30,
        f32::MIN_POSITIVE,
        f32::MIN_POSITIVE / 4.0,
        3.3e38,
    ] {
        assert_eq!(sc(x).half(), sc(x / 2.0), "halving {}", x);
        assert_eq!(sc(-x).half(), sc(-x / 2.0), "halving {}", -x);
    }
    let tiny = Scalar::from_bits(3);
    let halved = Scalar::from_bits((f32::from_bits(3) / 2.0).to_bits());
    assert_eq!(tiny.half(), halved);
    assert_eq!(sc(f32::INFINITY).half(), sc(f32::INFINITY));
}

#[test]
fn alpha_composition_rounds_half_away_from_zero() {
    assert_eq!(mul_alpha(255, AlphaValue { num: 1, den: 2 }), 128);
    assert_eq!(mul_alpha(255, AlphaValue { num: 1, den: 1 }), 255);
    assert_eq!(mul_alpha(255, AlphaValue { num: 0, den: 1 }), 0);
    assert_eq!(mul_alpha(200, AlphaValue { num: 1, den: 2 }), 100);
    assert_eq!(mul_alpha(1, AlphaValue { num: 1, den: 2 }), 1);
    assert_eq!(mul_alpha(101, AlphaValue { num: 1, den: 2 }), 51);
}

#[test]
fn packed_color_layout_is_argb() {
    assert_eq!(Color::from_rgba(255, 0, 0, 255), Color(0xffff0000));
    assert_eq!(Color::from_rgba(1, 2, 3, 4), Color(0x04010203));
}

#[test]
fn blur_mask_requires_positive_finite_sigma() {
    assert_eq!(MaskFilter::make_blur(sc(2.5)).unwrap().sigma, sc(2.5));
    assert!(MaskFilter::make_blur(sc(0.0)).is_none());
    assert!(MaskFilter::make_blur(sc(-1.0)).is_none());
    assert!(MaskFilter::make_blur(sc(f32::INFINITY)).is_none());
    assert!(MaskFilter::make_blur(sc(f32::NAN)).is_none());
}

#[test]
fn dash_effect_accepts_even_non_negative_lists_with_a_positive_entry() {
    let ok = PathEffect::new_dash_path(&vec![sc(4.0), sc(2.0)], sc(0.5)).unwrap();
    assert_eq!(ok.intervals, vec![sc(4.0), sc(2.0)]);
    assert_eq!(ok.phase, sc(0.5));
    assert!(PathEffect::new_dash_path(&vec![sc(4.0)], sc(0.0)).is_none());
    assert!(PathEffect::new_dash_path(&Vec::new(), sc(0.0)).is_none());
    assert!(PathEffect::new_dash_path(&vec![sc(-1.0), sc(2.0)], sc(0.0)).is_none());
    assert!(PathEffect::new_dash_path(&vec![sc(0.0), sc(0.0)], sc(0.0)).is_none());
}

#[test]
fn path_records_commands_and_emptiness_tracks_verbs() {
    let mut p = Path::new();
    assert!(p.is_empty());
    let m = Matrix::identity();
    p.transform_matrix(&m);
    assert!(p.is_empty());
    p.move_to(sc(1.0), sc(2.0));
    assert!(!p.is_empty());
    p.line_to(sc(3.0), sc(4.0));
    p.close();
    assert_eq!(p.cmds.len(), 4);
    assert!(matches!(p.cmds[1], PathCmd::MoveTo(_, _)));
    assert!(matches!(p.cmds[3], PathCmd::Close));
}

#[test]
fn path_boolean_combine_appends_operand_and_marker() {
    let mut a = Path::new();
    a.move_to(sc(0.0), sc(0.0));
    let mut b = Path::new();
    b.move_to(sc(1.0), sc(1.0));
    b.line_to(sc(2.0), sc(2.0));
    assert!(a.op(&b, PathOp::Intersect));
    assert_eq!(a.cmds.len(), 4);
    match &a.cmds[3] {
        PathCmd::Combine { op, operand_len } => {
            assert_eq!(*op, PathOp::Intersect);
            assert_eq!(*operand_len, 2);
        },
        other => panic!("unexpected cmd {:?}", other),
    }
}

#[test]
fn path_clone_copies_every_command() {
    let mut p = Path::new();
    p.move_to(sc(0.0), sc(0.0));
    p.quad_to(sc(1.0), sc(1.0), sc(2.0), sc(0.0));
    p.set_fill_type(FillType::EvenOdd);
    let q = p.clone();
    assert_eq!(p, q);
}

#[test]
fn surface_reports_size_and_alpha_kind() {
    let s = Surface::new_rgba(640, 480).unwrap();
    assert_eq!(s.width(), 640);
    assert_eq!(s.height(), 480);
    assert_eq!(s.alpha_type(), AlphaType::Unpremultiplied);
    let p = Surface::new_rgba_premultiplied(1, 1).unwrap();
    assert_eq!(p.alpha_type(), AlphaType::Premultiplied);
}

#[test]
fn gradient_without_stops_fails_paint_resolution() {
    let mut ctx = Context::new(10, 10);
    let g = CanvasGradient::create_linear_gradient(sc(0.0), sc(0.0), sc(10.0), sc(0.0));
    ctx.set_fill_style(Pattern::Gradient(g));
    let before = ctx.surface.canvas.ops.len();
    assert_eq!(
        ctx.fill_rect(sc(0.0), sc(0.0), sc(4.0), sc(4.0)),
        Err(SkError::BackendResource)
    );
    assert_eq!(ctx.surface.canvas.ops.len(), before);
}

#[test]
fn gradient_fill_attaches_a_shader_bound_to_the_current_transform() {
    let mut ctx = Context::new(10, 10);
    let mut g = CanvasGradient::create_linear_gradient(sc(0.0), sc(0.0), sc(10.0), sc(0.0));
    g.add_color_stop(sc(0.0), Rgba { red: 255, green: 0, blue: 0, alpha: 255 });
    g.add_color_stop(sc(1.0), Rgba { red: 0, green: 0, blue: 255, alpha: 255 });
    ctx.set_fill_style(Pattern::Gradient(g));
    ctx.fill_rect(sc(0.0), sc(0.0), sc(4.0), sc(4.0)).unwrap();
    match ctx.surface.canvas.ops.last().unwrap() {
        CanvasOp::DrawRect(_, _, _, _, p) => {
            assert_eq!(p.color, Rgba { red: 0, green: 0, blue: 0, alpha: 255 });
            match p.shader.as_ref().unwrap() {
                Shader::Linear(lg) => {
                    assert_eq!(lg.start_point, (sc(0.0), sc(0.0)));
                    assert_eq!(lg.end_point, (sc(10.0), sc(0.0)));
                    assert_eq!(lg.base.colors, vec![
                        Color::from_rgba(255, 0, 0, 255),
                        Color::from_rgba(0, 0, 255, 255),
                    ]);
                    assert_eq!(lg.base.positions, vec![sc(0.0), sc(1.0)]);
                    assert!(matches!(lg.base.transform, Matrix::Identity));
                },
                other => panic!("unexpected shader {:?}", other),
            }
        },
        other => panic!("unexpected op {:?}", other),
    }
}

#[test]
fn radial_gradient_resolves_to_a_conical_shader() {
    let mut ctx = Context::new(10, 10);
    let mut g = CanvasGradient::create_radial_gradient(
        sc(1.0),
        sc(2.0),
        sc(0.5),
        sc(3.0),
        sc(4.0),
        sc(6.0),
    );
    g.add_color_stop(sc(0.0), Rgba { red: 9, green: 8, blue: 7, alpha: 255 });
    ctx.set_stroke_style(Pattern::Gradient(g));
    ctx.move_to(sc(0.0), sc(0.0));
    ctx.line_to(sc(5.0), sc(5.0));
    ctx.stroke().unwrap();
    match ctx.surface.canvas.ops.last().unwrap() {
        CanvasOp::DrawPath(_, p) => match p.shader.as_ref().unwrap() {
            Shader::TwoPointConical(cg) => {
                assert_eq!(cg.start, (sc(1.0), sc(2.0)));
                assert_eq!(cg.start_radius, sc(0.5));
                assert_eq!(cg.end, (sc(3.0), sc(4.0)));
                assert_eq!(cg.end_radius, sc(6.0));
            },
            other => panic!("unexpected shader {:?}", other),
        },
        other => panic!("unexpected op {:?}", other),
    }
}
