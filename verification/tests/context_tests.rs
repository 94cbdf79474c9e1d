//! Behaviour of the drawing context: the save/restore stack, the global
//! paint, the drawing pipeline and the shadow pass.

use canvas2d::blend::BlendMode;
use canvas2d::canvas::CanvasOp;
use canvas2d::ctx::Context;
use canvas2d::error::SkError;
use canvas2d::paint::Rgba;
use canvas2d::pattern::Pattern;
use canvas2d::scalar::Scalar;
use canvas2d::style::FillType;

fn sc(x: f32) -> Scalar {
    Scalar::from_bits(x.to_bits())
}

fn draw_rect_paints(ctx: &Context) -> Vec<&canvas2d::paint::Paint> {
    ctx.surface
        .canvas
        .ops
        .iter()
        .filter_map(|op| match op {
            CanvasOp::DrawRect(_, _, _, _, p) => Some(p),
            _ => None,
        })
        .collect()
}

fn draw_count(ctx: &Context) -> usize {
    ctx.surface
        .canvas
        .ops
        .iter()
        .filter(|op| matches!(op, CanvasOp::DrawRect(..) | CanvasOp::DrawPath(..)))
        .count()
}

#[test]
fn save_restore_returns_stackable_fields_to_save_point() {
    let mut ctx = Context::new(100, 100);
    ctx.set_shadow_blur(sc(5.0));
    ctx.set_fill_style(Pattern::from_color("#00ff00").unwrap());
    ctx.save();
    ctx.set_shadow_blur(sc(9.0));
    ctx.set_fill_style(Pattern::from_color("#0000ff").unwrap());
    ctx.set_line_dash(vec![sc(1.0), sc(2.0)]);
    assert_eq!(ctx.get_shadow_blur(), sc(9.0));
    ctx.restore();
    assert_eq!(ctx.get_shadow_blur(), sc(5.0));
    assert!(ctx.get_line_dash().is_empty());
    match ctx.get_fill_style() {
        Pattern::Color(c, _) => assert_eq!(*c, Rgba { red: 0, green: 255, blue: 0, alpha: 255 }),
        other => panic!("unexpected fill style {:?}", other),
    }
}

#[test]
fn nested_save_restore_matches_each_level() {
    let mut ctx = Context::new(10, 10);
    ctx.set_shadow_offset_x(sc(1.0));
    ctx.save();
    ctx.set_shadow_offset_x(sc(2.0));
    ctx.save();
    ctx.set_shadow_offset_x(sc(3.0));
    ctx.restore();
    assert_eq!(ctx.get_shadow_offset_x(), sc(2.0));
    ctx.restore();
    assert_eq!(ctx.get_shadow_offset_x(), sc(1.0));
}

#[test]
fn restore_at_depth_one_is_idempotent_but_still_reaches_backend() {
    let mut ctx = Context::new(10, 10);
    ctx.set_shadow_blur(sc(7.0));
    ctx.restore();
    ctx.restore();
    assert_eq!(ctx.get_shadow_blur(), sc(7.0));
    let restores = ctx
        .surface
        .canvas
        .ops
        .iter()
        .filter(|op| matches!(op, CanvasOp::Restore))
        .count();
    assert_eq!(restores, 2);
}

#[test]
fn global_paint_survives_restore() {
    let mut ctx = Context::new(10, 10);
    ctx.save();
    ctx.set_global_alpha(1, 4).unwrap();
    ctx.set_global_composite_operation("multiply").unwrap();
    ctx.set_line_width(sc(4.0));
    ctx.restore();
    assert_eq!(ctx.get_global_alpha(), (1, 4));
    assert_eq!(ctx.get_global_composite_operation(), "multiply");
    assert_eq!(ctx.get_line_width(), sc(4.0));
}

#[test]
fn set_global_alpha_round_trips_in_range() {
    let mut ctx = Context::new(10, 10);
    assert!(ctx.set_global_alpha(1, 2).is_ok());
    assert_eq!(ctx.get_global_alpha(), (1, 2));
    assert!(ctx.set_global_alpha(0, 1).is_ok());
    assert_eq!(ctx.get_global_alpha(), (0, 1));
    assert!(ctx.set_global_alpha(1, 1).is_ok());
    assert_eq!(ctx.get_global_alpha(), (1, 1));
}

#[test]
fn set_global_alpha_rejects_out_of_range_and_keeps_prior_value() {
    let mut ctx = Context::new(10, 10);
    ctx.set_global_alpha(1, 2).unwrap();
    assert_eq!(ctx.set_global_alpha(-1, 10), Err(SkError::Validation));
    assert_eq!(ctx.get_global_alpha(), (1, 2));
    assert_eq!(ctx.set_global_alpha(11, 10), Err(SkError::Validation));
    assert_eq!(ctx.get_global_alpha(), (1, 2));
    assert_eq!(ctx.set_global_alpha(1, 0), Err(SkError::Validation));
    assert_eq!(ctx.get_global_alpha(), (1, 2));
}

#[test]
fn resolved_fill_alpha_at_full_opacity_is_unchanged() {
    let mut ctx = Context::new(10, 10);
    ctx.set_fill_style(Pattern::from_color("#ff0000").unwrap());
    ctx.set_global_alpha(1, 1).unwrap();
    ctx.fill_rect(sc(0.0), sc(0.0), sc(5.0), sc(5.0)).unwrap();
    let paints = draw_rect_paints(&ctx);
    assert_eq!(paints.len(), 1);
    assert_eq!(paints[0].color, Rgba { red: 255, green: 0, blue: 0, alpha: 255 });
}

#[test]
fn resolved_fill_alpha_at_half_opacity_rounds_away_from_zero() {
    let mut ctx = Context::new(10, 10);
    ctx.set_fill_style(Pattern::from_color("#ff0000").unwrap());
    ctx.set_global_alpha(1, 2).unwrap();
    ctx.fill_rect(sc(0.0), sc(0.0), sc(5.0), sc(5.0)).unwrap();
    let paints = draw_rect_paints(&ctx);
    assert_eq!(paints.len(), 1);
    assert_eq!(paints[0].color.alpha, 128);
}

#[test]
fn shadow_emits_exactly_two_draws_shadow_first() {
    let mut ctx = Context::new(10, 10);
    ctx.set_fill_style(Pattern::from_color("#ff0000").unwrap());
    ctx.set_shadow_color("#000000").unwrap();
    ctx.set_shadow_blur(sc(5.0));
    ctx.set_shadow_offset_x(sc(3.0));
    ctx.set_shadow_offset_y(sc(3.0));
    ctx.fill_rect(sc(0.0), sc(0.0), sc(4.0), sc(4.0)).unwrap();
    let paints = draw_rect_paints(&ctx);
    assert_eq!(paints.len(), 2);
    assert!(paints[0].mask_filter.is_some());
    assert!(paints[1].mask_filter.is_none());
    assert_eq!(paints[0].mask_filter.unwrap().sigma, sc(2.5));
}

#[test]
fn shadow_suppressed_when_one_offset_is_zero() {
    let mut ctx = Context::new(10, 10);
    ctx.set_fill_style(Pattern::from_color("#ff0000").unwrap());
    ctx.set_shadow_color("#000000").unwrap();
    ctx.set_shadow_blur(sc(5.0));
    ctx.set_shadow_offset_x(sc(0.0));
    ctx.set_shadow_offset_y(sc(3.0));
    ctx.fill_rect(sc(0.0), sc(0.0), sc(4.0), sc(4.0)).unwrap();
    assert_eq!(draw_count(&ctx), 1);
}

#[test]
fn shadow_suppressed_when_blur_is_zero_or_alpha_is_zero() {
    let mut ctx = Context::new(10, 10);
    ctx.set_fill_style(Pattern::from_color("#ff0000").unwrap());
    ctx.set_shadow_color("#000000").unwrap();
    ctx.set_shadow_blur(sc(0.0));
    ctx.set_shadow_offset_x(sc(3.0));
    ctx.set_shadow_offset_y(sc(3.0));
    ctx.fill_rect(sc(0.0), sc(0.0), sc(4.0), sc(4.0)).unwrap();
    assert_eq!(draw_count(&ctx), 1);

    let mut ctx = Context::new(10, 10);
    ctx.set_fill_style(Pattern::from_color("#ff0000").unwrap());
    ctx.set_shadow_color("rgba(0, 0, 0, 0)").unwrap();
    ctx.set_shadow_blur(sc(5.0));
    ctx.set_shadow_offset_x(sc(3.0));
    ctx.set_shadow_offset_y(sc(3.0));
    ctx.fill_rect(sc(0.0), sc(0.0), sc(4.0), sc(4.0)).unwrap();
    assert_eq!(draw_count(&ctx), 1);
}

#[test]
fn shadow_pass_is_bracketed_by_save_restore_and_offset_concats() {
    let mut ctx = Context::new(10, 10);
    ctx.set_fill_style(Pattern::from_color("#ff0000").unwrap());
    ctx.set_shadow_color("#000000").unwrap();
    ctx.set_shadow_blur(sc(5.0));
    ctx.set_shadow_offset_x(sc(3.0));
    ctx.set_shadow_offset_y(sc(3.0));
    ctx.fill_rect(sc(0.0), sc(0.0), sc(4.0), sc(4.0)).unwrap();
    let ops = &ctx.surface.canvas.ops;
    assert_eq!(ops.len(), 7);
    assert!(matches!(ops[0], CanvasOp::Save));
    assert!(matches!(ops[1], CanvasOp::Concat(_)));
    assert!(matches!(ops[2], CanvasOp::Concat(_)));
    assert!(matches!(ops[3], CanvasOp::Concat(_)));
    assert!(matches!(ops[4], CanvasOp::DrawRect(..)));
    assert!(matches!(ops[5], CanvasOp::Restore));
    assert!(matches!(ops[6], CanvasOp::DrawRect(..)));
}

#[test]
fn composite_operation_round_trips_for_every_keyword() {
    let keywords = [
        "clear", "color", "color-burn", "color-dodge", "darken", "destination",
        "destination-atop", "destination-in", "destination-out", "destination-over",
        "difference", "exclusion", "hard-light", "hue", "lighten", "luminosity", "modulate",
        "multiply", "overlay", "plus", "saturation", "screen", "soft-light", "source",
        "source-atop", "source-in", "source-out", "source-over", "xor",
    ];
    let mut ctx = Context::new(10, 10);
    for kw in keywords {
        ctx.set_global_composite_operation(kw).unwrap();
        assert_eq!(ctx.get_global_composite_operation(), kw);
    }
}

#[test]
fn composite_operation_rejects_unknown_keyword_and_keeps_mode() {
    let mut ctx = Context::new(10, 10);
    ctx.set_global_composite_operation("multiply").unwrap();
    assert_eq!(ctx.set_global_composite_operation("lighter"), Err(SkError::Parse));
    assert_eq!(ctx.get_global_composite_operation(), "multiply");
}

#[test]
fn begin_path_then_fill_draws_nothing_and_does_not_fail() {
    let mut ctx = Context::new(10, 10);
    ctx.rect(sc(0.0), sc(0.0), sc(4.0), sc(4.0));
    ctx.begin_path();
    ctx.fill(FillType::Winding).unwrap();
    let ops = &ctx.surface.canvas.ops;
    assert_eq!(ops.len(), 1);
    match &ops[0] {
        CanvasOp::DrawPath(p, _) => assert!(p.is_empty()),
        other => panic!("unexpected op {:?}", other),
    }
}

#[test]
fn clip_installs_current_path_with_even_odd_rule() {
    let mut ctx = Context::new(10, 10);
    ctx.rect(sc(1.0), sc(1.0), sc(5.0), sc(5.0));
    let rule = FillType::from_str("evenodd").unwrap();
    ctx.clip(rule);
    assert_eq!(ctx.surface.canvas.clip.len(), 1);
    assert_eq!(ctx.surface.canvas.clip[0].fill_type, FillType::EvenOdd);
    match ctx.surface.canvas.ops.last().unwrap() {
        CanvasOp::ClipPath(p) => {
            assert_eq!(p.fill_type, FillType::EvenOdd);
            assert!(!p.is_empty());
        },
        other => panic!("unexpected op {:?}", other),
    }
}

#[test]
fn clear_rect_uses_transparent_source_over_paint() {
    let mut ctx = Context::new(10, 10);
    ctx.set_global_composite_operation("multiply").unwrap();
    ctx.clear_rect(sc(0.0), sc(0.0), sc(4.0), sc(4.0));
    match ctx.surface.canvas.ops.last().unwrap() {
        CanvasOp::DrawRect(_, _, _, _, p) => {
            assert_eq!(p.blend_mode, BlendMode::SourceOver);
            assert_eq!(p.color, Rgba { red: 0, green: 0, blue: 0, alpha: 0 });
        },
        other => panic!("unexpected op {:?}", other),
    }
    assert_eq!(ctx.get_global_composite_operation(), "multiply");
}

#[test]
fn dash_failure_aborts_draw_atomically() {
    let mut ctx = Context::new(10, 10);
    ctx.set_fill_style(Pattern::from_color("#ff0000").unwrap());
    ctx.set_line_dash(vec![sc(1.0)]);
    let before = ctx.surface.canvas.ops.len();
    assert_eq!(
        ctx.fill_rect(sc(0.0), sc(0.0), sc(4.0), sc(4.0)),
        Err(SkError::BackendResource)
    );
    assert_eq!(ctx.surface.canvas.ops.len(), before);
}

#[test]
fn valid_dash_list_is_attached_to_the_paint() {
    let mut ctx = Context::new(10, 10);
    ctx.set_fill_style(Pattern::from_color("#ff0000").unwrap());
    ctx.set_line_dash(vec![sc(4.0), sc(2.0)]);
    ctx.set_line_dash_offset(sc(1.0));
    ctx.fill_rect(sc(0.0), sc(0.0), sc(4.0), sc(4.0)).unwrap();
    let paints = draw_rect_paints(&ctx);
    let effect = paints[0].path_effect.as_ref().unwrap();
    assert_eq!(effect.intervals, vec![sc(4.0), sc(2.0)]);
    assert_eq!(effect.phase, sc(1.0));
}

#[test]
fn set_shadow_color_rejects_current_color_without_mutation() {
    let mut ctx = Context::new(10, 10);
    assert_eq!(ctx.set_shadow_color("currentcolor"), Err(SkError::Validation));
    assert_eq!(ctx.get_shadow_color(), "rgba(0, 0, 0, 0)");
    assert_eq!(ctx.set_shadow_color("no-such-colour"), Err(SkError::Parse));
    assert_eq!(ctx.get_shadow_color(), "rgba(0, 0, 0, 0)");
    ctx.set_shadow_color("#123456").unwrap();
    assert_eq!(ctx.get_shadow_color(), "#123456");
}

#[test]
fn translate_compensates_path_and_forwards_to_backend() {
    let mut ctx = Context::new(10, 10);
    ctx.rect(sc(0.0), sc(0.0), sc(2.0), sc(2.0));
    ctx.translate(sc(3.0), sc(4.0));
    match ctx.surface.canvas.ops.last().unwrap() {
        CanvasOp::Translate(dx, dy) => {
            assert_eq!(*dx, sc(3.0));
            assert_eq!(*dy, sc(4.0));
        },
        other => panic!("unexpected op {:?}", other),
    }
    match ctx.path.cmds.last().unwrap() {
        canvas2d::path::PathCmd::Transform(m) => match m {
            canvas2d::matrix::Matrix::PreTranslate(base, dx, dy) => {
                assert!(matches!(**base, canvas2d::matrix::Matrix::Identity));
                assert_eq!(*dx, sc(-3.0));
                assert_eq!(*dy, sc(-4.0));
            },
            other => panic!("unexpected matrix {:?}", other),
        },
        other => panic!("unexpected cmd {:?}", other),
    }
}

#[test]
fn scale_forwards_without_path_compensation() {
    let mut ctx = Context::new(10, 10);
    ctx.rect(sc(0.0), sc(0.0), sc(2.0), sc(2.0));
    let cmds_before = ctx.path.cmds.len();
    ctx.scale(sc(2.0), sc(2.0));
    assert_eq!(ctx.path.cmds.len(), cmds_before);
    assert!(matches!(ctx.surface.canvas.ops.last().unwrap(), CanvasOp::Scale(_, _)));
}

#[test]
fn stroke_resolves_stroke_style_and_geometry() {
    let mut ctx = Context::new(10, 10);
    ctx.set_stroke_style(Pattern::from_color("#0000ff").unwrap());
    ctx.set_line_width(sc(2.0));
    ctx.set_line_cap("round").unwrap();
    ctx.set_line_join("bevel").unwrap();
    ctx.set_miter_limit(sc(8.0));
    ctx.move_to(sc(0.0), sc(0.0));
    ctx.line_to(sc(5.0), sc(5.0));
    ctx.stroke().unwrap();
    match ctx.surface.canvas.ops.last().unwrap() {
        CanvasOp::DrawPath(_, p) => {
            assert_eq!(p.style, canvas2d::style::PaintStyle::Stroke);
            assert_eq!(p.color, Rgba { red: 0, green: 0, blue: 255, alpha: 255 });
            assert_eq!(p.stroke_width, sc(2.0));
            assert_eq!(p.stroke_cap, canvas2d::style::StrokeCap::Round);
            assert_eq!(p.stroke_join, canvas2d::style::StrokeJoin::Bevel);
            assert_eq!(p.stroke_miter, sc(8.0));
        },
        other => panic!("unexpected op {:?}", other),
    }
}

#[test]
fn fill_path_variant_tags_rule_onto_given_path() {
    let mut ctx = Context::new(10, 10);
    ctx.set_fill_style(Pattern::from_color("#ff0000").unwrap());
    let mut path = canvas2d::path::Path::new();
    path.move_to(sc(0.0), sc(0.0));
    path.line_to(sc(3.0), sc(0.0));
    path.close();
    ctx.fill_path(&mut path, FillType::EvenOdd).unwrap();
    assert_eq!(path.fill_type, FillType::EvenOdd);
    assert!(ctx.path.cmds.is_empty());
    match ctx.surface.canvas.ops.last().unwrap() {
        CanvasOp::DrawPath(p, _) => assert_eq!(p.fill_type, FillType::EvenOdd),
        other => panic!("unexpected op {:?}", other),
    }
}

#[test]
fn get_set_transform_round_trip() {
    let mut ctx = Context::new(10, 10);
    let t = canvas2d::matrix::Transform::new(sc(2.0), sc(0.0), sc(0.0), sc(2.0), sc(5.0), sc(6.0));
    ctx.set_transform(t);
    match ctx.get_transform() {
        canvas2d::matrix::Matrix::Raw(got) => assert_eq!(got, t),
        other => panic!("unexpected transform {:?}", other),
    }
}

#[test]
fn shadow_suppressed_when_blur_mask_cannot_be_built() {
    let mut ctx = Context::new(10, 10);
    ctx.set_fill_style(Pattern::from_color("#ff0000").unwrap());
    ctx.set_shadow_color("#000000").unwrap();
    ctx.set_shadow_blur(sc(-5.0));
    ctx.set_shadow_offset_x(sc(3.0));
    ctx.set_shadow_offset_y(sc(3.0));
    ctx.fill_rect(sc(0.0), sc(0.0), sc(4.0), sc(4.0)).unwrap();
    assert_eq!(draw_count(&ctx), 1);
}

#[test]
fn stroke_rect_also_gets_a_shadow_pass() {
    let mut ctx = Context::new(10, 10);
    ctx.set_stroke_style(Pattern::from_color("#00ff00").unwrap());
    ctx.set_shadow_color("#000000").unwrap();
    ctx.set_shadow_blur(sc(2.0));
    ctx.set_shadow_offset_x(sc(1.0));
    ctx.set_shadow_offset_y(sc(1.0));
    ctx.stroke_rect(sc(0.0), sc(0.0), sc(4.0), sc(4.0)).unwrap();
    let paints = draw_rect_paints(&ctx);
    assert_eq!(paints.len(), 2);
    assert_eq!(paints[0].mask_filter.unwrap().sigma, sc(1.0));
    assert_eq!(paints[1].style, canvas2d::style::PaintStyle::Stroke);
}

#[test]
fn canvas_save_restore_scopes_the_clip() {
    let mut ctx = Context::new(10, 10);
    ctx.save();
    ctx.rect(sc(0.0), sc(0.0), sc(4.0), sc(4.0));
    ctx.clip(FillType::Winding);
    assert_eq!(ctx.surface.canvas.clip.len(), 1);
    ctx.restore();
    assert_eq!(ctx.surface.canvas.clip.len(), 0);
}

#[test]
fn clip_path_variant_leaves_context_path_alone() {
    let mut ctx = Context::new(10, 10);
    let mut path = canvas2d::path::Path::new();
    path.push_circle(sc(2.0), sc(2.0), sc(1.0));
    ctx.clip_path(&mut path, FillType::EvenOdd);
    assert_eq!(path.fill_type, FillType::EvenOdd);
    assert!(ctx.path.cmds.is_empty());
    assert_eq!(ctx.surface.canvas.clip.len(), 1);
}

#[test]
fn image_pattern_fill_keeps_the_base_paint() {
    let mut ctx = Context::new(10, 10);
    ctx.set_fill_style(canvas2d::pattern::Pattern::ImagePattern);
    ctx.fill_rect(sc(0.0), sc(0.0), sc(4.0), sc(4.0)).unwrap();
    let paints = draw_rect_paints(&ctx);
    assert_eq!(paints[0].color, Rgba { red: 0, green: 0, blue: 0, alpha: 255 });
    assert!(paints[0].shader.is_none());
}
