//! The drawing context: rendering-state management, paint resolution, the
//! shadow pass, and the drawing pipeline.
//!
//! The context owns one surface, one current path, one global paint and a
//! stack of rendering-state frames that is never empty.  Style setters
//! mutate the top frame or the global paint; draw calls resolve concrete
//! paints from them — never cached, recomputed on every call — optionally
//! run the shadow pass, and hand the backend its commands.

use vstd::prelude::*;
use crate::scalar::Scalar;
use crate::error::SkError;
use crate::style::{FillType, PaintStyle, StrokeCap, StrokeJoin, stroke_cap_keyword,
    stroke_cap_of, stroke_join_keyword, stroke_join_of};
use crate::blend::{BlendMode, blend_keyword, blend_of};
use crate::alpha::{AlphaValue, alpha_byte, alpha_to_byte, mul_alpha, scale_alpha};
use crate::matrix::{Matrix, Transform};
use crate::paint::{MaskFilter, Paint, PaintV, PathEffect, PathEffectV, Rgba, dash_intervals_ok};
use crate::path::{Path, PathV, PathCmd};
use crate::pattern::{Pattern, PatternV, css_color_of, ParsedColor};
use crate::gradient::spec_shader_of;
use crate::state::{Context2dRenderingState, StateOp, StateV, state_step};
use crate::canvas::{CanvasOpV, CanvasV, Surface, SurfaceV, CanvasFrameV};
use crate::util::copy_vec;

verus! {

/// The non-stacked paint parameters: stroke geometry, the global alpha and
/// the compositing mode.  These live for the context's lifetime and are
/// deliberately not affected by save/restore — an asymmetry against the
/// stackable style fields that is a documented contract of the engine.
#[derive(Clone, Copy, PartialEq, Eq, Structural, Debug)]
pub struct GlobalPaint {
    pub stroke_width: Scalar,
    pub stroke_cap: StrokeCap,
    pub stroke_join: StrokeJoin,
    pub miter_limit: Scalar,
    pub global_alpha: AlphaValue,
    pub blend_mode: BlendMode,
}

impl GlobalPaint {
    /// A fresh context's global paint: hairline width, butt caps, miter
    /// joins with limit ten, full opacity, source-over compositing.
    pub open spec fn spec_default() -> GlobalPaint {
        GlobalPaint {
            stroke_width: Scalar { bits: 0 },
            stroke_cap: StrokeCap::Butt,
            stroke_join: StrokeJoin::Miter,
            miter_limit: Scalar { bits: 0x4120_0000 },
            global_alpha: AlphaValue { num: 1, den: 1 },
            blend_mode: BlendMode::SourceOver,
        }
    }
}

/// The drawing context.
pub struct Context {
    /// The backend target; public so that embeddings and tests can read
    /// the recorded command log.
    pub surface: Surface,
    /// The current path, replaced wholesale by `begin_path`.
    pub path: Path,
    /// The non-stacked global paint parameters.
    pub paint: GlobalPaint,
    /// The rendering-state stack; depth at least one, always.
    pub states: Vec<Context2dRenderingState>,
}

/// The mathematical value of a [`Context`].
#[verifier::ext_equal]
pub struct ContextV {
    pub surface: SurfaceV,
    pub path: PathV,
    pub paint: GlobalPaint,
    pub states: Seq<StateV>,
}

impl ContextV {
    /// The invariant every context keeps: the state stack is never empty
    /// and the global alpha is a well-formed fraction.
    pub open spec fn wf(self) -> bool {
        self.states.len() >= 1 && self.paint.global_alpha.wf()
    }

    /// The top rendering-state frame.
    pub open spec fn top(self) -> StateV {
        self.states.last()
    }
}

impl View for Context {
    type V = ContextV;

    open spec fn view(&self) -> ContextV {
        ContextV {
            surface: self.surface@,
            path: self.path@,
            paint: self.paint,
            states: Seq::new(self.states@.len(), |i: int| self.states@[i]@),
        }
    }
}

impl Context {
    /// A fresh context over a surface of the given size: one default state
    /// frame, a default global paint, an empty path.
    pub open spec fn spec_new(width: u32, height: u32) -> ContextV {
        ContextV {
            surface: SurfaceV {
                width,
                height,
                alpha_kind: crate::style::AlphaType::Unpremultiplied,
                canvas: crate::canvas::Canvas::spec_new(),
            },
            path: PathV { cmds: Seq::empty(), fill_type: FillType::Winding },
            paint: GlobalPaint::spec_default(),
            states: seq![Context2dRenderingState::spec_default()],
        }
    }

    pub fn new(width: u32, height: u32) -> (r: Context)
        ensures
            r@ == Context::spec_new(width, height),
            r@.wf(),
    {
        let surface = match Surface::new_rgba(width, height) {
            Some(s) => s,
            None => vstd::pervasive::unreached(),
        };
        let mut states: Vec<Context2dRenderingState> = Vec::new();
        states.push(Context2dRenderingState::default());
        let r = Context {
            surface,
            path: Path::new(),
            paint: GlobalPaint {
                stroke_width: Scalar { bits: 0 },
                stroke_cap: StrokeCap::Butt,
                stroke_join: StrokeJoin::Miter,
                miter_limit: Scalar { bits: 0x4120_0000 },
                global_alpha: AlphaValue { num: 1, den: 1 },
                blend_mode: BlendMode::SourceOver,
            },
            states,
        };
        proof {
            assert(r@.states =~= seq![Context2dRenderingState::spec_default()]);
            assert(r@.path =~= (PathV { cmds: Seq::empty(), fill_type: FillType::Winding }));
            assert(r@ =~= Context::spec_new(width, height));
        }
        r
    }

    /// A shared borrow of the top state frame.
    fn top_state(&self) -> (st: &Context2dRenderingState)
        requires
            self@.wf(),
        ensures
            st@ == self@.top(),
    {
        let idx: usize = self.states.len() - 1;
        &self.states[idx]
    }

    /// A mutable borrow of the top state frame; the context's other parts
    /// are untouched, and the stack keeps its frames below the top.
    fn top_state_mut(&mut self) -> (st: &mut Context2dRenderingState)
        requires
            old(self)@.wf(),
        ensures
            *st == old(self).states@[old(self).states@.len() - 1],
            st@ == old(self)@.top(),
            final(self)@.states == old(self)@.states.update(
                old(self)@.states.len() - 1,
                final(st)@,
            ),
            final(self)@.surface == old(self)@.surface,
            final(self)@.path == old(self)@.path,
            final(self)@.paint == old(self)@.paint,
            final(self)@.wf(),
    {
        let idx: usize = self.states.len() - 1;
        &mut self.states[idx]
    }

    /// Clones the top style frame and pushes the copy, and saves the
    /// backend's transform and clip in lockstep: one state save always
    /// pairs with exactly one backend save.
    pub fn save(&mut self)
        requires
            old(self)@.wf(),
        ensures
            final(self)@.wf(),
            final(self)@.states == state_step(old(self)@.states, StateOp::Save),
            final(self)@.surface.canvas == (CanvasV {
                saved: old(self)@.surface.canvas.saved.push(
                    CanvasFrameV {
                        transform: old(self)@.surface.canvas.transform,
                        clip: old(self)@.surface.canvas.clip,
                    },
                ),
                ops: old(self)@.surface.canvas.ops.push(CanvasOpV::Save),
                ..old(self)@.surface.canvas
            }),
            final(self)@.surface.width == old(self)@.surface.width,
            final(self)@.surface.height == old(self)@.surface.height,
            final(self)@.surface.alpha_kind == old(self)@.surface.alpha_kind,
            final(self)@.path == old(self)@.path,
            final(self)@.paint == old(self)@.paint,
    {
        self.surface.save();
        let idx: usize = self.states.len() - 1;
        let copy = self.states[idx].clone();
        self.states.push(copy);
        proof {
            assert(final(self)@.states =~= state_step(old(self)@.states, StateOp::Save));
        }
    }

    /// Restores the backend's transform and clip, and pops the style stack
    /// only above depth one: at depth one the style frame is retained — an
    /// idempotent no-op — while the backend restore still occurs.
    pub fn restore(&mut self)
        requires
            old(self)@.wf(),
        ensures
            final(self)@.wf(),
            final(self)@.states == state_step(old(self)@.states, StateOp::Restore),
            final(self)@.surface.canvas == if old(self)@.surface.canvas.saved.len() > 0 {
                CanvasV {
                    transform: old(self)@.surface.canvas.saved.last().transform,
                    clip: old(self)@.surface.canvas.saved.last().clip,
                    saved: old(self)@.surface.canvas.saved.drop_last(),
                    ops: old(self)@.surface.canvas.ops.push(CanvasOpV::Restore),
                }
            } else {
                CanvasV {
                    ops: old(self)@.surface.canvas.ops.push(CanvasOpV::Restore),
                    ..old(self)@.surface.canvas
                }
            },
            final(self)@.surface.width == old(self)@.surface.width,
            final(self)@.surface.height == old(self)@.surface.height,
            final(self)@.surface.alpha_kind == old(self)@.surface.alpha_kind,
            final(self)@.path == old(self)@.path,
            final(self)@.paint == old(self)@.paint,
    {
        self.surface.restore();
        if self.states.len() > 1 {
            self.states.pop();
            proof {
                assert(final(self)@.states =~= state_step(old(self)@.states, StateOp::Restore));
            }
        } else {
            proof {
                assert(final(self)@.states =~= state_step(old(self)@.states, StateOp::Restore));
            }
        }
    }
}

impl Context {
    /// Discards the current path and installs a fresh empty one.
    pub fn begin_path(&mut self)
        ensures
            final(self)@ == (ContextV {
                path: PathV { cmds: Seq::empty(), fill_type: FillType::Winding },
                ..old(self)@
            }),
    {
        self.path = Path::new();
        proof {
            assert(final(self)@ =~= (ContextV {
                path: PathV { cmds: Seq::empty(), fill_type: FillType::Winding },
                ..old(self)@
            }));
        }
    }

    pub fn move_to(&mut self, x: Scalar, y: Scalar)
        ensures
            final(self)@ == (ContextV {
                path: PathV {
                    cmds: old(self)@.path.cmds.push(PathCmd::MoveTo(x, y)),
                    ..old(self)@.path
                },
                ..old(self)@
            }),
    {
        self.path.move_to(x, y);
    }

    pub fn line_to(&mut self, x: Scalar, y: Scalar)
        ensures
            final(self)@ == (ContextV {
                path: PathV {
                    cmds: old(self)@.path.cmds.push(PathCmd::LineTo(x, y)),
                    ..old(self)@.path
                },
                ..old(self)@
            }),
    {
        self.path.line_to(x, y);
    }

    pub fn bezier_curve_to(&mut self, cp1x: Scalar, cp1y: Scalar, cp2x: Scalar, cp2y: Scalar,
        x: Scalar, y: Scalar)
        ensures
            final(self)@ == (ContextV {
                path: PathV {
                    cmds: old(self)@.path.cmds.push(
                        PathCmd::CubicTo(cp1x, cp1y, cp2x, cp2y, x, y),
                    ),
                    ..old(self)@.path
                },
                ..old(self)@
            }),
    {
        self.path.cubic_to(cp1x, cp1y, cp2x, cp2y, x, y);
    }

    pub fn quadratic_curve_to(&mut self, cpx: Scalar, cpy: Scalar, x: Scalar, y: Scalar)
        ensures
            final(self)@ == (ContextV {
                path: PathV {
                    cmds: old(self)@.path.cmds.push(PathCmd::QuadTo(cpx, cpy, x, y)),
                    ..old(self)@.path
                },
                ..old(self)@
            }),
    {
        self.path.quad_to(cpx, cpy, x, y);
    }

    pub fn arc(&mut self, center_x: Scalar, center_y: Scalar, radius: Scalar, start_angle:
        Scalar, end_angle: Scalar, from_end: bool)
        ensures
            final(self)@ == (ContextV {
                path: PathV {
                    cmds: old(self)@.path.cmds.push(
                        PathCmd::Arc {
                            center_x,
                            center_y,
                            radius,
                            start_angle,
                            end_angle,
                            from_end,
                        },
                    ),
                    ..old(self)@.path
                },
                ..old(self)@
            }),
    {
        self.path.arc(center_x, center_y, radius, start_angle, end_angle, from_end);
    }

    /// The rounded-corner construction from two tangent targets and a
    /// radius.
    pub fn arc_to(&mut self, ctrl_x: Scalar, ctrl_y: Scalar, to_x: Scalar, to_y: Scalar,
        radius: Scalar)
        ensures
            final(self)@ == (ContextV {
                path: PathV {
                    cmds: old(self)@.path.cmds.push(
                        PathCmd::ArcToTangent(ctrl_x, ctrl_y, to_x, to_y, radius),
                    ),
                    ..old(self)@.path
                },
                ..old(self)@
            }),
    {
        self.path.arc_to_tangent(ctrl_x, ctrl_y, to_x, to_y, radius);
    }

    /// Appends a rectangle; the four scalars are handed to the backend's
    /// rectangle verb as they are.
    pub fn rect(&mut self, x: Scalar, y: Scalar, width: Scalar, height: Scalar)
        ensures
            final(self)@ == (ContextV {
                path: PathV {
                    cmds: old(self)@.path.cmds.push(PathCmd::AddRect(x, y, width, height)),
                    ..old(self)@.path
                },
                ..old(self)@
            }),
    {
        self.path.add_rect(x, y, width, height);
    }

    pub fn close_path(&mut self)
        ensures
            final(self)@ == (ContextV {
                path: PathV {
                    cmds: old(self)@.path.cmds.push(PathCmd::Close),
                    ..old(self)@.path
                },
                ..old(self)@
            }),
    {
        self.path.close();
    }

    /// Forwards a scale to the backend transform; unlike `translate` there
    /// is no path compensation — a deliberate asymmetry.
    pub fn scale(&mut self, x: Scalar, y: Scalar)
        ensures
            final(self)@ == (ContextV {
                surface: SurfaceV {
                    canvas: CanvasV {
                        transform: Matrix::PreScale(
                            Box::new(old(self)@.surface.canvas.transform),
                            x,
                            y,
                        ),
                        ops: old(self)@.surface.canvas.ops.push(CanvasOpV::Scale(x, y)),
                        ..old(self)@.surface.canvas
                    },
                    ..old(self)@.surface
                },
                ..old(self)@
            }),
    {
        self.surface.canvas.scale(x, y);
    }

    /// Forwards a translation to the backend transform and applies the
    /// inverse translation to the stored path, which keeps its points in
    /// device coordinates.
    pub fn translate(&mut self, x: Scalar, y: Scalar)
        ensures
            final(self)@ == (ContextV {
                path: PathV {
                    cmds: old(self)@.path.cmds.push(
                        PathCmd::Transform(
                            Matrix::PreTranslate(
                                Box::new(Matrix::Identity),
                                x.spec_neg(),
                                y.spec_neg(),
                            ),
                        ),
                    ),
                    ..old(self)@.path
                },
                surface: SurfaceV {
                    canvas: CanvasV {
                        transform: Matrix::PreTranslate(
                            Box::new(old(self)@.surface.canvas.transform),
                            x,
                            y,
                        ),
                        ops: old(self)@.surface.canvas.ops.push(CanvasOpV::Translate(x, y)),
                        ..old(self)@.surface.canvas
                    },
                    ..old(self)@.surface
                },
                ..old(self)@
            }),
    {
        let mut inverted = Matrix::identity();
        inverted.pre_translate(x.neg(), y.neg());
        self.path.transform_matrix(&inverted);
        self.surface.canvas.translate(x, y);
    }

    /// The backend's active transform.
    pub fn get_transform(&self) -> (r: Matrix)
        ensures
            r == self@.surface.canvas.transform,
    {
        self.surface.canvas.get_transform()
    }

    /// Replaces the backend's active transform.
    pub fn set_transform(&mut self, transform: Transform)
        ensures
            final(self)@ == (ContextV {
                surface: SurfaceV {
                    canvas: CanvasV {
                        transform: Matrix::Raw(transform),
                        ops: old(self)@.surface.canvas.ops.push(
                            CanvasOpV::SetTransform(transform),
                        ),
                        ..old(self)@.surface.canvas
                    },
                    ..old(self)@.surface
                },
                ..old(self)@
            }),
    {
        self.surface.canvas.set_transform(transform);
    }

    pub fn set_miter_limit(&mut self, miter: Scalar)
        ensures
            final(self)@ == (ContextV {
                paint: GlobalPaint { miter_limit: miter, ..old(self)@.paint },
                ..old(self)@
            }),
    {
        self.paint.miter_limit = miter;
    }

    pub fn get_miter_limit(&self) -> (r: Scalar)
        ensures
            r == self@.paint.miter_limit,
    {
        self.paint.miter_limit
    }

    /// Sets the global alpha to the exact fraction `num / den`.  The value
    /// must lie in `[0, 1]`; anything else — a negative numerator, a
    /// numerator above the denominator, or a non-positive denominator — is
    /// rejected before any state changes.
    pub fn set_global_alpha(&mut self, num: i64, den: i64) -> (r: Result<(), SkError>)
        ensures
            if 1 <= den && 0 <= num && num <= den {
                r == Ok::<(), SkError>(()) && final(self)@ == (ContextV {
                    paint: GlobalPaint {
                        global_alpha: AlphaValue { num: num as u64, den: den as u64 },
                        ..old(self)@.paint
                    },
                    ..old(self)@
                })
            } else {
                r == Err::<(), SkError>(SkError::Validation) && final(self)@ == old(self)@
            },
    {
        if den < 1 || num < 0 || num > den {
            return Err(SkError::Validation);
        }
        self.paint.global_alpha = AlphaValue { num: num as u64, den: den as u64 };
        Ok(())
    }

    /// The global alpha, exactly as it was set: numerator and denominator.
    pub fn get_global_alpha(&self) -> (r: (u64, u64))
        ensures
            r.0 == self@.paint.global_alpha.num,
            r.1 == self@.paint.global_alpha.den,
    {
        (self.paint.global_alpha.num, self.paint.global_alpha.den)
    }

    /// Sets the compositing mode from its canonical keyword; an unknown
    /// keyword is a parse error and leaves the previous mode unchanged.
    pub fn set_global_composite_operation(&mut self, value: &str) -> (r: Result<(), SkError>)
        ensures
            match blend_of(value@) {
                Some(m) => r == Ok::<(), SkError>(()) && final(self)@ == (ContextV {
                    paint: GlobalPaint { blend_mode: m, ..old(self)@.paint },
                    ..old(self)@
                }),
                None => r == Err::<(), SkError>(SkError::Parse) && final(self)@ == old(self)@,
            },
    {
        match BlendMode::from_str(value) {
            Ok(m) => {
                self.paint.blend_mode = m;
                Ok(())
            },
            Err(e) => Err(e),
        }
    }

    /// The compositing mode's canonical keyword; setting what this returns
    /// always succeeds and reproduces the mode.
    pub fn get_global_composite_operation(&self) -> (r: &'static str)
        ensures
            r@ == blend_keyword(self@.paint.blend_mode),
    {
        self.paint.blend_mode.as_str()
    }

    pub fn set_line_cap(&mut self, value: &str) -> (r: Result<(), SkError>)
        ensures
            match stroke_cap_of(value@) {
                Some(c) => r == Ok::<(), SkError>(()) && final(self)@ == (ContextV {
                    paint: GlobalPaint { stroke_cap: c, ..old(self)@.paint },
                    ..old(self)@
                }),
                None => r == Err::<(), SkError>(SkError::Parse) && final(self)@ == old(self)@,
            },
    {
        match StrokeCap::from_str(value) {
            Ok(c) => {
                self.paint.stroke_cap = c;
                Ok(())
            },
            Err(e) => Err(e),
        }
    }

    pub fn get_line_cap(&self) -> (r: &'static str)
        ensures
            r@ == stroke_cap_keyword(self@.paint.stroke_cap),
    {
        self.paint.stroke_cap.as_str()
    }

    pub fn set_line_join(&mut self, value: &str) -> (r: Result<(), SkError>)
        ensures
            match stroke_join_of(value@) {
                Some(j) => r == Ok::<(), SkError>(()) && final(self)@ == (ContextV {
                    paint: GlobalPaint { stroke_join: j, ..old(self)@.paint },
                    ..old(self)@
                }),
                None => r == Err::<(), SkError>(SkError::Parse) && final(self)@ == old(self)@,
            },
    {
        match StrokeJoin::from_str(value) {
            Ok(j) => {
                self.paint.stroke_join = j;
                Ok(())
            },
            Err(e) => Err(e),
        }
    }

    pub fn get_line_join(&self) -> (r: &'static str)
        ensures
            r@ == stroke_join_keyword(self@.paint.stroke_join),
    {
        self.paint.stroke_join.as_str()
    }

    pub fn set_line_width(&mut self, width: Scalar)
        ensures
            final(self)@ == (ContextV {
                paint: GlobalPaint { stroke_width: width, ..old(self)@.paint },
                ..old(self)@
            }),
    {
        self.paint.stroke_width = width;
    }

    pub fn get_line_width(&self) -> (r: Scalar)
        ensures
            r == self@.paint.stroke_width,
    {
        self.paint.stroke_width
    }

    pub fn set_fill_style(&mut self, style: Pattern)
        requires
            old(self)@.wf(),
        ensures
            final(self)@.wf(),
            final(self)@.states == state_step(
                old(self)@.states,
                StateOp::SetFillStyle(style@),
            ),
            final(self)@.surface == old(self)@.surface,
            final(self)@.path == old(self)@.path,
            final(self)@.paint == old(self)@.paint,
    {
        let st = self.top_state_mut();
        st.fill_style = style;
    }

    pub fn get_fill_style(&self) -> (r: &Pattern)
        requires
            self@.wf(),
        ensures
            r@ == self@.top().fill_style,
    {
        &self.top_state().fill_style
    }

    pub fn set_stroke_style(&mut self, style: Pattern)
        requires
            old(self)@.wf(),
        ensures
            final(self)@.wf(),
            final(self)@.states == state_step(
                old(self)@.states,
                StateOp::SetStrokeStyle(style@),
            ),
            final(self)@.surface == old(self)@.surface,
            final(self)@.path == old(self)@.path,
            final(self)@.paint == old(self)@.paint,
    {
        let st = self.top_state_mut();
        st.stroke_style = style;
    }

    pub fn get_stroke_style(&self) -> (r: &Pattern)
        requires
            self@.wf(),
        ensures
            r@ == self@.top().stroke_style,
    {
        &self.top_state().stroke_style
    }

    pub fn set_shadow_blur(&mut self, blur: Scalar)
        requires
            old(self)@.wf(),
        ensures
            final(self)@.wf(),
            final(self)@.states == state_step(old(self)@.states, StateOp::SetShadowBlur(blur)),
            final(self)@.surface == old(self)@.surface,
            final(self)@.path == old(self)@.path,
            final(self)@.paint == old(self)@.paint,
    {
        let st = self.top_state_mut();
        st.shadow_blur = blur;
    }

    pub fn get_shadow_blur(&self) -> (r: Scalar)
        requires
            self@.wf(),
        ensures
            r == self@.top().shadow_blur,
    {
        self.top_state().shadow_blur
    }

    /// Sets the shadow colour from colour text.  The text is parsed first
    /// and rejected — parse error on malformed text, validation error on
    /// the current-colour keyword — before any state changes; on success
    /// both the parsed colour and its textual form are stored.
    pub fn set_shadow_color(&mut self, text: &str) -> (r: Result<(), SkError>)
        requires
            old(self)@.wf(),
        ensures
            final(self)@.wf(),
            match css_color_of(text@) {
                None => r == Err::<(), SkError>(SkError::Parse) && final(self)@ == old(self)@,
                Some(ParsedColor::CurrentColor) => r == Err::<(), SkError>(SkError::Validation)
                    && final(self)@ == old(self)@,
                Some(ParsedColor::Rgba(c)) => r == Ok::<(), SkError>(()) && final(self)@.states
                    == state_step(old(self)@.states, StateOp::SetShadowColor(c, text@))
                    && final(self)@.surface == old(self)@.surface && final(self)@.path == old(
                    self,
                )@.path && final(self)@.paint == old(self)@.paint,
            },
    {
        match crate::pattern::parse_color_text(text) {
            None => Err(SkError::Parse),
            Some(ParsedColor::CurrentColor) => Err(SkError::Validation),
            Some(ParsedColor::Rgba(c)) => {
                let owned = text.to_owned();
                let st = self.top_state_mut();
                st.shadow_color = c;
                st.shadow_color_string = owned;
                Ok(())
            },
        }
    }

    /// The shadow colour's original textual form.
    pub fn get_shadow_color(&self) -> (r: String)
        requires
            self@.wf(),
        ensures
            r@ == self@.top().shadow_color_string,
    {
        self.top_state().shadow_color_string.clone()
    }

    pub fn set_shadow_offset_x(&mut self, offset: Scalar)
        requires
            old(self)@.wf(),
        ensures
            final(self)@.wf(),
            final(self)@.states == state_step(
                old(self)@.states,
                StateOp::SetShadowOffsetX(offset),
            ),
            final(self)@.surface == old(self)@.surface,
            final(self)@.path == old(self)@.path,
            final(self)@.paint == old(self)@.paint,
    {
        let st = self.top_state_mut();
        st.shadow_offset_x = offset;
    }

    pub fn get_shadow_offset_x(&self) -> (r: Scalar)
        requires
            self@.wf(),
        ensures
            r == self@.top().shadow_offset_x,
    {
        self.top_state().shadow_offset_x
    }

    pub fn set_shadow_offset_y(&mut self, offset: Scalar)
        requires
            old(self)@.wf(),
        ensures
            final(self)@.wf(),
            final(self)@.states == state_step(
                old(self)@.states,
                StateOp::SetShadowOffsetY(offset),
            ),
            final(self)@.surface == old(self)@.surface,
            final(self)@.path == old(self)@.path,
            final(self)@.paint == old(self)@.paint,
    {
        let st = self.top_state_mut();
        st.shadow_offset_y = offset;
    }

    pub fn get_shadow_offset_y(&self) -> (r: Scalar)
        requires
            self@.wf(),
        ensures
            r == self@.top().shadow_offset_y,
    {
        self.top_state().shadow_offset_y
    }

    pub fn set_line_dash(&mut self, list: Vec<Scalar>)
        requires
            old(self)@.wf(),
        ensures
            final(self)@.wf(),
            final(self)@.states == state_step(old(self)@.states, StateOp::SetLineDash(list@)),
            final(self)@.surface == old(self)@.surface,
            final(self)@.path == old(self)@.path,
            final(self)@.paint == old(self)@.paint,
    {
        let st = self.top_state_mut();
        st.line_dash_list = list;
    }

    pub fn get_line_dash(&self) -> (r: Vec<Scalar>)
        requires
            self@.wf(),
        ensures
            r@ == self@.top().line_dash_list,
    {
        copy_vec(&self.top_state().line_dash_list)
    }

    pub fn set_line_dash_offset(&mut self, offset: Scalar)
        requires
            old(self)@.wf(),
        ensures
            final(self)@.wf(),
            final(self)@.states == state_step(
                old(self)@.states,
                StateOp::SetLineDashOffset(offset),
            ),
            final(self)@.surface == old(self)@.surface,
            final(self)@.path == old(self)@.path,
            final(self)@.paint == old(self)@.paint,
    {
        let st = self.top_state_mut();
        st.line_dash_offset = offset;
    }

    pub fn get_line_dash_offset(&self) -> (r: Scalar)
        requires
            self@.wf(),
        ensures
            r == self@.top().line_dash_offset,
    {
        self.top_state().line_dash_offset
    }
}

/// The paint a draw call starts from: the global parameters with the given
/// draw style, colour black at the global alpha's byte value, and no
/// attached resources.
pub open spec fn base_paint(g: GlobalPaint, style: PaintStyle) -> PaintV {
    PaintV {
        style,
        color: Rgba { red: 0, green: 0, blue: 0, alpha: alpha_byte(g.global_alpha) as u8 },
        blend_mode: g.blend_mode,
        shader: None,
        stroke_width: g.stroke_width,
        stroke_cap: g.stroke_cap,
        stroke_join: g.stroke_join,
        stroke_miter: g.miter_limit,
        path_effect: None,
        mask_filter: None,
        anti_alias: false,
    }
}

/// Paint resolution: the concrete draw parameters a draw call hands the
/// backend, computed from the global paint, the top state frame and the
/// backend's current transform.
///
/// A colour source composes its alpha with the global alpha, rounding half
/// away from zero in the 0–255 domain.  A gradient source derives a fresh
/// shader bound to the current transform and carries the global alpha in
/// the paint colour.  The image-pattern placeholder changes nothing.  A
/// non-empty dash list must build a dash effect; a list the backend
/// rejects aborts resolution with a backend-resource failure.
pub open spec fn spec_resolve_paint(
    g: GlobalPaint,
    st: StateV,
    style: PaintStyle,
    cur: Matrix,
) -> Result<PaintV, SkError> {
    let src = if style is Fill {
        st.fill_style
    } else {
        st.stroke_style
    };
    let base = base_paint(g, style);
    let resolved = match src {
        PatternV::Color(c, _) => Ok(
            PaintV {
                color: Rgba {
                    red: c.red,
                    green: c.green,
                    blue: c.blue,
                    alpha: scale_alpha(
                        c.alpha as int,
                        g.global_alpha.num as int,
                        g.global_alpha.den as int,
                    ) as u8,
                },
                ..base
            },
        ),
        PatternV::Gradient(gr) => match spec_shader_of(gr, cur) {
            Ok(sh) => Ok(PaintV { shader: Some(sh), ..base }),
            Err(e) => Err(e),
        },
        PatternV::ImagePattern => Ok(base),
    };
    match resolved {
        Err(e) => Err(e),
        Ok(p) => if st.line_dash_list.len() != 0 {
            if dash_intervals_ok(st.line_dash_list) {
                Ok(
                    PaintV {
                        path_effect: Some(
                            PathEffectV {
                                intervals: st.line_dash_list,
                                phase: st.line_dash_offset,
                            },
                        ),
                        ..p
                    },
                )
            } else {
                Err(SkError::BackendResource)
            }
        } else {
            Ok(p)
        },
    }
}

/// `a * b` clamped to 255: the saturating multiply the shadow alpha is
/// composed with in the 0–255 integer domain.
pub open spec fn sat_mul_255(a: int, b: int) -> int {
    if a * b > 255 {
        255
    } else {
        a * b
    }
}

/// The shadow compositor's decision.  A shadow pass is emitted only if the
/// composed shadow alpha is positive, the blur is non-zero, both offsets
/// are non-zero — both, not either — and the backend accepts a blur mask
/// of half the blur.  The shadow paint is the resolved paint with its
/// alpha overridden and the blur mask attached.
pub open spec fn spec_shadow_paint(st: StateV, p: PaintV) -> Option<PaintV> {
    let sa = sat_mul_255(st.shadow_color.alpha as int, p.color.alpha as int);
    if sa == 0 {
        None
    } else if st.shadow_blur.spec_is_zero() || st.shadow_offset_x.spec_is_zero()
        || st.shadow_offset_y.spec_is_zero() {
        None
    } else {
        match MaskFilter::spec_make_blur(st.shadow_blur.spec_half()) {
            None => None,
            Some(mf) => Some(
                PaintV { color: Rgba { alpha: sa as u8, ..p.color }, mask_filter: Some(mf), ..p },
            ),
        }
    }
}

/// The transform in force during a shadow draw: the current transform `t`
/// composed with a screen-space translation — built as inverse, then `t`
/// pre-translated by the offset, then `t` again, so the offset is not
/// scaled by `t`.
pub open spec fn shadow_offset_transform(t: Matrix, sx: Scalar, sy: Scalar) -> Matrix {
    Matrix::PreConcat(
        Box::new(
            Matrix::PreConcat(
                Box::new(
                    Matrix::PreConcat(Box::new(t), Box::new(Matrix::Invert(Box::new(t)))),
                ),
                Box::new(Matrix::PreTranslate(Box::new(t), sx, sy)),
            ),
        ),
        Box::new(t),
    )
}

/// The three concatenations the device-space offset applies, in order:
/// the inverse of `t`, `t` pre-translated by the offset, and `t` itself.
pub open spec fn shadow_offset_ops(t: Matrix, sx: Scalar, sy: Scalar) -> Seq<CanvasOpV> {
    seq![
        CanvasOpV::Concat(Matrix::Invert(Box::new(t))),
        CanvasOpV::Concat(Matrix::PreTranslate(Box::new(t), sx, sy)),
        CanvasOpV::Concat(t),
    ]
}

/// Everything a rectangle draw appends to the command log: when a shadow
/// paint exists, a bracketed shadow pass — save, the offset
/// concatenations, the shadow draw, restore — strictly before the primary
/// draw; otherwise the primary draw alone.
pub open spec fn rect_draw_ops(
    c: ContextV,
    x: Scalar,
    y: Scalar,
    w: Scalar,
    h: Scalar,
    p: PaintV,
) -> Seq<CanvasOpV> {
    match spec_shadow_paint(c.top(), p) {
        Some(sp) => seq![CanvasOpV::Save] + shadow_offset_ops(
            c.surface.canvas.transform,
            c.top().shadow_offset_x,
            c.top().shadow_offset_y,
        ) + seq![CanvasOpV::DrawRect(x, y, w, h, sp), CanvasOpV::Restore] + seq![
            CanvasOpV::DrawRect(x, y, w, h, p),
        ],
        None => seq![CanvasOpV::DrawRect(x, y, w, h, p)],
    }
}

/// Everything a path draw appends to the command log; the shadow pass, if
/// any, strictly precedes the primary draw so the primary geometry renders
/// on top.
pub open spec fn path_draw_ops(c: ContextV, pv: PathV, p: PaintV) -> Seq<CanvasOpV> {
    match spec_shadow_paint(c.top(), p) {
        Some(sp) => seq![CanvasOpV::Save] + shadow_offset_ops(
            c.surface.canvas.transform,
            c.top().shadow_offset_x,
            c.top().shadow_offset_y,
        ) + seq![CanvasOpV::DrawPath(pv, sp), CanvasOpV::Restore] + seq![
            CanvasOpV::DrawPath(pv, p),
        ],
        None => seq![CanvasOpV::DrawPath(pv, p)],
    }
}

/// The paint `clear_rect` always draws with: fully transparent black,
/// source-over compositing regardless of the configured mode — an explicit
/// override, not a state mutation.
pub open spec fn clear_rect_paint() -> PaintV {
    PaintV {
        style: PaintStyle::Fill,
        color: Rgba { red: 0, green: 0, blue: 0, alpha: 0 },
        stroke_miter: Scalar { bits: 0x4120_0000 },
        ..Paint::spec_new()
    }
}

impl Context {
    /// Builds the base paint from the global parameters.
    fn make_base_paint(&self, style: PaintStyle) -> (p: Paint)
        requires
            self@.wf(),
        ensures
            p@ == base_paint(self@.paint, style),
    {
        Paint {
            style,
            color: Rgba {
                red: 0,
                green: 0,
                blue: 0,
                alpha: alpha_to_byte(self.paint.global_alpha),
            },
            blend_mode: self.paint.blend_mode,
            shader: None,
            stroke_width: self.paint.stroke_width,
            stroke_cap: self.paint.stroke_cap,
            stroke_join: self.paint.stroke_join,
            stroke_miter: self.paint.miter_limit,
            path_effect: None,
            mask_filter: None,
            anti_alias: false,
        }
    }

    /// Resolves the concrete paint for one draw call; recomputed on every
    /// call, never cached, since state can change between calls.
    fn resolve_paint(&self, style: PaintStyle) -> (r: Result<Paint, SkError>)
        requires
            self@.wf(),
        ensures
            match spec_resolve_paint(
                self@.paint,
                self@.top(),
                style,
                self@.surface.canvas.transform,
            ) {
                Ok(pv) => r matches Ok(p) && p@ == pv,
                Err(e) => r matches Err(e2) && e2 == e,
            },
    {
        let mut paint = self.make_base_paint(style);
        let st = self.top_state();
        let src = match style {
            PaintStyle::Fill => &st.fill_style,
            PaintStyle::Stroke => &st.stroke_style,
        };
        match src {
            Pattern::Color(c, _) => {
                let a: u8 = mul_alpha(c.alpha, self.paint.global_alpha);
                paint.set_color(c.red, c.green, c.blue, a);
            },
            Pattern::Gradient(g) => {
                let current = self.surface.canvas.get_transform();
                match g.get_shader(&current) {
                    Ok(shader) => {
                        let ab: u8 = alpha_to_byte(self.paint.global_alpha);
                        paint.set_color(0, 0, 0, ab);
                        paint.set_shader(&shader);
                    },
                    Err(e) => {
                        return Err(e);
                    },
                }
            },
            Pattern::ImagePattern => {},
        }
        let st = self.top_state();
        if st.line_dash_list.len() != 0 {
            match PathEffect::new_dash_path(&st.line_dash_list, st.line_dash_offset) {
                Some(effect) => {
                    paint.set_path_effect(&effect);
                },
                None => {
                    return Err(SkError::BackendResource);
                },
            }
        }
        Ok(paint)
    }

    /// Decides the shadow pass for a resolved paint.
    fn shadow_paint(&self, paint: &Paint) -> (r: Option<Paint>)
        requires
            self@.wf(),
        ensures
            match spec_shadow_paint(self@.top(), paint@) {
                Some(sv) => r matches Some(p) && p@ == sv,
                None => r is None,
            },
    {
        let alpha: u8 = paint.get_alpha();
        let st = self.top_state();
        proof {
            assert((st.shadow_color.alpha as u32) * (alpha as u32) <= 255 * 255)
                by (nonlinear_arith)
                requires
                    st.shadow_color.alpha <= 255,
                    alpha <= 255,
            ;
        }
        let sa32: u32 = (st.shadow_color.alpha as u32) * (alpha as u32);
        let shadow_alpha: u8 = if sa32 > 255 {
            255
        } else {
            sa32 as u8
        };
        if shadow_alpha == 0 {
            return None;
        }
        if st.shadow_blur.is_zero() || st.shadow_offset_x.is_zero()
            || st.shadow_offset_y.is_zero() {
            return None;
        }
        let mut shadow = paint.clone();
        shadow.set_alpha(shadow_alpha);
        match MaskFilter::make_blur(st.shadow_blur.half()) {
            Some(blur) => {
                shadow.set_mask_filter(&blur);
                Some(shadow)
            },
            None => None,
        }
    }

    /// Rewrites the backend transform so the shadow lands displaced by the
    /// offset in screen pixels, independent of the current transform's
    /// scale: concatenate the inverse, the pre-translated transform, and
    /// the transform again.  A plain translate call would scale the
    /// offset.
    fn apply_shadow_offset_matrix(
        surface: &mut Surface,
        shadow_offset_x: Scalar,
        shadow_offset_y: Scalar,
    ) -> (r: Result<(), SkError>)
        ensures
            r == Ok::<(), SkError>(()),
            final(surface)@ == (SurfaceV {
                canvas: CanvasV {
                    transform: shadow_offset_transform(
                        old(surface)@.canvas.transform,
                        shadow_offset_x,
                        shadow_offset_y,
                    ),
                    ops: old(surface)@.canvas.ops + shadow_offset_ops(
                        old(surface)@.canvas.transform,
                        shadow_offset_x,
                        shadow_offset_y,
                    ),
                    ..old(surface)@.canvas
                },
                ..old(surface)@
            }),
    {
        let current = surface.canvas.get_transform();
        let inverted = match current.invert() {
            Some(m) => m,
            None => {
                return Err(SkError::BackendResource);
            },
        };
        surface.canvas.concat(inverted);
        let mut shadow_offset = current.clone();
        shadow_offset.pre_translate(shadow_offset_x, shadow_offset_y);
        surface.canvas.concat(shadow_offset);
        surface.canvas.concat(current);
        proof {
            assert(surface@.canvas.ops =~= old(surface)@.canvas.ops + shadow_offset_ops(
                old(surface)@.canvas.transform,
                shadow_offset_x,
                shadow_offset_y,
            ));
            assert(surface@ =~= (SurfaceV {
                canvas: CanvasV {
                    transform: shadow_offset_transform(
                        old(surface)@.canvas.transform,
                        shadow_offset_x,
                        shadow_offset_y,
                    ),
                    ops: old(surface)@.canvas.ops + shadow_offset_ops(
                        old(surface)@.canvas.transform,
                        shadow_offset_x,
                        shadow_offset_y,
                    ),
                    ..old(surface)@.canvas
                },
                ..old(surface)@
            }));
        }
        Ok(())
    }

    /// Fills a rectangle: resolves the fill paint, runs the shadow pass if
    /// it is due — shadow strictly before the primary draw — and records
    /// the draw.  On resolution failure nothing is drawn and nothing
    /// changes.
    pub fn fill_rect(&mut self, x: Scalar, y: Scalar, w: Scalar, h: Scalar) -> (r: Result<
        (),
        SkError,
    >)
        requires
            old(self)@.wf(),
        ensures
            final(self)@.wf(),
            match spec_resolve_paint(
                old(self)@.paint,
                old(self)@.top(),
                PaintStyle::Fill,
                old(self)@.surface.canvas.transform,
            ) {
                Err(e) => r == Err::<(), SkError>(e) && final(self)@ == old(self)@,
                Ok(p) => r == Ok::<(), SkError>(()) && final(self)@ == (ContextV {
                    surface: SurfaceV {
                        canvas: CanvasV {
                            ops: old(self)@.surface.canvas.ops + rect_draw_ops(
                                old(self)@,
                                x,
                                y,
                                w,
                                h,
                                p,
                            ),
                            ..old(self)@.surface.canvas
                        },
                        ..old(self)@.surface
                    },
                    ..old(self)@
                }),
            },
    {
        let fill_paint = match self.resolve_paint(PaintStyle::Fill) {
            Ok(p) => p,
            Err(e) => {
                return Err(e);
            },
        };
        match self.shadow_paint(&fill_paint) {
            Some(shadow_paint) => {
                let st = self.top_state();
                let sx = st.shadow_offset_x;
                let sy = st.shadow_offset_y;
                self.surface.save();
                match Self::apply_shadow_offset_matrix(&mut self.surface, sx, sy) {
                    Ok(()) => {},
                    Err(e) => {
                        return Err(e);
                    },
                }
                self.surface.draw_rect(x, y, w, h, &shadow_paint);
                self.surface.restore();
            },
            None => {},
        }
        self.surface.draw_rect(x, y, w, h, &fill_paint);
        proof {
            assert(self@.surface.canvas.ops =~= old(self)@.surface.canvas.ops + rect_draw_ops(
                old(self)@,
                x,
                y,
                w,
                h,
                fill_paint@,
            ));
            assert(self@.surface.canvas.saved =~= old(self)@.surface.canvas.saved);
            assert(self@ =~= (ContextV {
                surface: SurfaceV {
                    canvas: CanvasV {
                        ops: old(self)@.surface.canvas.ops + rect_draw_ops(
                            old(self)@,
                            x,
                            y,
                            w,
                            h,
                            fill_paint@,
                        ),
                        ..old(self)@.surface.canvas
                    },
                    ..old(self)@.surface
                },
                ..old(self)@
            }));
        }
        Ok(())
    }

    /// Strokes a rectangle's outline; otherwise as `fill_rect`.
    pub fn stroke_rect(&mut self, x: Scalar, y: Scalar, w: Scalar, h: Scalar) -> (r: Result<
        (),
        SkError,
    >)
        requires
            old(self)@.wf(),
        ensures
            final(self)@.wf(),
            match spec_resolve_paint(
                old(self)@.paint,
                old(self)@.top(),
                PaintStyle::Stroke,
                old(self)@.surface.canvas.transform,
            ) {
                Err(e) => r == Err::<(), SkError>(e) && final(self)@ == old(self)@,
                Ok(p) => r == Ok::<(), SkError>(()) && final(self)@ == (ContextV {
                    surface: SurfaceV {
                        canvas: CanvasV {
                            ops: old(self)@.surface.canvas.ops + rect_draw_ops(
                                old(self)@,
                                x,
                                y,
                                w,
                                h,
                                p,
                            ),
                            ..old(self)@.surface.canvas
                        },
                        ..old(self)@.surface
                    },
                    ..old(self)@
                }),
            },
    {
        let stroke_paint = match self.resolve_paint(PaintStyle::Stroke) {
            Ok(p) => p,
            Err(e) => {
                return Err(e);
            },
        };
        match self.shadow_paint(&stroke_paint) {
            Some(shadow_paint) => {
                let st = self.top_state();
                let sx = st.shadow_offset_x;
                let sy = st.shadow_offset_y;
                self.surface.save();
                match Self::apply_shadow_offset_matrix(&mut self.surface, sx, sy) {
                    Ok(()) => {},
                    Err(e) => {
                        return Err(e);
                    },
                }
                self.surface.draw_rect(x, y, w, h, &shadow_paint);
                self.surface.restore();
            },
            None => {},
        }
        self.surface.draw_rect(x, y, w, h, &stroke_paint);
        proof {
            assert(self@.surface.canvas.ops =~= old(self)@.surface.canvas.ops + rect_draw_ops(
                old(self)@,
                x,
                y,
                w,
                h,
                stroke_paint@,
            ));
            assert(self@.surface.canvas.saved =~= old(self)@.surface.canvas.saved);
            assert(self@ =~= (ContextV {
                surface: SurfaceV {
                    canvas: CanvasV {
                        ops: old(self)@.surface.canvas.ops + rect_draw_ops(
                            old(self)@,
                            x,
                            y,
                            w,
                            h,
                            stroke_paint@,
                        ),
                        ..old(self)@.surface.canvas
                    },
                    ..old(self)@.surface
                },
                ..old(self)@
            }));
        }
        Ok(())
    }

    /// Fills the context's current path under the given fill rule.  The
    /// rule is tagged onto the path first; on resolution failure the tag
    /// change remains but nothing is drawn.
    pub fn fill(&mut self, fill_rule: FillType) -> (r: Result<(), SkError>)
        requires
            old(self)@.wf(),
        ensures
            final(self)@.wf(),
            match spec_resolve_paint(
                old(self)@.paint,
                old(self)@.top(),
                PaintStyle::Fill,
                old(self)@.surface.canvas.transform,
            ) {
                Err(e) => r == Err::<(), SkError>(e) && final(self)@ == (ContextV {
                    path: PathV { fill_type: fill_rule, ..old(self)@.path },
                    ..old(self)@
                }),
                Ok(p) => r == Ok::<(), SkError>(()) && final(self)@ == (ContextV {
                    path: PathV { fill_type: fill_rule, ..old(self)@.path },
                    surface: SurfaceV {
                        canvas: CanvasV {
                            ops: old(self)@.surface.canvas.ops + path_draw_ops(
                                old(self)@,
                                PathV { fill_type: fill_rule, ..old(self)@.path },
                                p,
                            ),
                            ..old(self)@.surface.canvas
                        },
                        ..old(self)@.surface
                    },
                    ..old(self)@
                }),
            },
    {
        self.path.set_fill_type(fill_rule);
        let fill_paint = match self.resolve_paint(PaintStyle::Fill) {
            Ok(p) => p,
            Err(e) => {
                return Err(e);
            },
        };
        match self.shadow_paint(&fill_paint) {
            Some(shadow_paint) => {
                let st = self.top_state();
                let sx = st.shadow_offset_x;
                let sy = st.shadow_offset_y;
                self.surface.save();
                match Self::apply_shadow_offset_matrix(&mut self.surface, sx, sy) {
                    Ok(()) => {},
                    Err(e) => {
                        return Err(e);
                    },
                }
                self.surface.canvas.draw_path(&self.path, &shadow_paint);
                self.surface.restore();
            },
            None => {},
        }
        self.surface.canvas.draw_path(&self.path, &fill_paint);
        proof {
            assert(self@.surface.canvas.ops =~= old(self)@.surface.canvas.ops + path_draw_ops(
                old(self)@,
                PathV { fill_type: fill_rule, ..old(self)@.path },
                fill_paint@,
            ));
            assert(self@.surface.canvas.saved =~= old(self)@.surface.canvas.saved);
            assert(self@ =~= (ContextV {
                path: PathV { fill_type: fill_rule, ..old(self)@.path },
                surface: SurfaceV {
                    canvas: CanvasV {
                        ops: old(self)@.surface.canvas.ops + path_draw_ops(
                            old(self)@,
                            PathV { fill_type: fill_rule, ..old(self)@.path },
                            fill_paint@,
                        ),
                        ..old(self)@.surface.canvas
                    },
                    ..old(self)@.surface
                },
                ..old(self)@
            }));
        }
        Ok(())
    }

    /// Fills a caller-supplied path under the given fill rule; the rule is
    /// tagged onto that path, and the context's own path is untouched.
    pub fn fill_path(&mut self, path: &mut Path, fill_rule: FillType) -> (r: Result<
        (),
        SkError,
    >)
        requires
            old(self)@.wf(),
        ensures
            final(self)@.wf(),
            final(path)@ == (PathV { fill_type: fill_rule, ..old(path)@ }),
            match spec_resolve_paint(
                old(self)@.paint,
                old(self)@.top(),
                PaintStyle::Fill,
                old(self)@.surface.canvas.transform,
            ) {
                Err(e) => r == Err::<(), SkError>(e) && final(self)@ == old(self)@,
                Ok(p) => r == Ok::<(), SkError>(()) && final(self)@ == (ContextV {
                    surface: SurfaceV {
                        canvas: CanvasV {
                            ops: old(self)@.surface.canvas.ops + path_draw_ops(
                                old(self)@,
                                PathV { fill_type: fill_rule, ..old(path)@ },
                                p,
                            ),
                            ..old(self)@.surface.canvas
                        },
                        ..old(self)@.surface
                    },
                    ..old(self)@
                }),
            },
    {
        path.set_fill_type(fill_rule);
        let fill_paint = match self.resolve_paint(PaintStyle::Fill) {
            Ok(p) => p,
            Err(e) => {
                return Err(e);
            },
        };
        match self.shadow_paint(&fill_paint) {
            Some(shadow_paint) => {
                let st = self.top_state();
                let sx = st.shadow_offset_x;
                let sy = st.shadow_offset_y;
                self.surface.save();
                match Self::apply_shadow_offset_matrix(&mut self.surface, sx, sy) {
                    Ok(()) => {},
                    Err(e) => {
                        return Err(e);
                    },
                }
                self.surface.canvas.draw_path(path, &shadow_paint);
                self.surface.restore();
            },
            None => {},
        }
        self.surface.canvas.draw_path(path, &fill_paint);
        proof {
            assert(self@.surface.canvas.saved =~= old(self)@.surface.canvas.saved);
            assert(self@ =~= (ContextV {
                surface: SurfaceV {
                    canvas: CanvasV {
                        ops: old(self)@.surface.canvas.ops + path_draw_ops(
                            old(self)@,
                            PathV { fill_type: fill_rule, ..old(path)@ },
                            fill_paint@,
                        ),
                        ..old(self)@.surface.canvas
                    },
                    ..old(self)@.surface
                },
                ..old(self)@
            }));
        }
        Ok(())
    }

    /// Strokes the context's current path; the fill rule is irrelevant to
    /// stroking and the path is not changed.
    pub fn stroke(&mut self) -> (r: Result<(), SkError>)
        requires
            old(self)@.wf(),
        ensures
            final(self)@.wf(),
            match spec_resolve_paint(
                old(self)@.paint,
                old(self)@.top(),
                PaintStyle::Stroke,
                old(self)@.surface.canvas.transform,
            ) {
                Err(e) => r == Err::<(), SkError>(e) && final(self)@ == old(self)@,
                Ok(p) => r == Ok::<(), SkError>(()) && final(self)@ == (ContextV {
                    surface: SurfaceV {
                        canvas: CanvasV {
                            ops: old(self)@.surface.canvas.ops + path_draw_ops(
                                old(self)@,
                                old(self)@.path,
                                p,
                            ),
                            ..old(self)@.surface.canvas
                        },
                        ..old(self)@.surface
                    },
                    ..old(self)@
                }),
            },
    {
        let stroke_paint = match self.resolve_paint(PaintStyle::Stroke) {
            Ok(p) => p,
            Err(e) => {
                return Err(e);
            },
        };
        match self.shadow_paint(&stroke_paint) {
            Some(shadow_paint) => {
                let st = self.top_state();
                let sx = st.shadow_offset_x;
                let sy = st.shadow_offset_y;
                self.surface.save();
                match Self::apply_shadow_offset_matrix(&mut self.surface, sx, sy) {
                    Ok(()) => {},
                    Err(e) => {
                        return Err(e);
                    },
                }
                self.surface.canvas.draw_path(&self.path, &shadow_paint);
                self.surface.restore();
            },
            None => {},
        }
        self.surface.canvas.draw_path(&self.path, &stroke_paint);
        proof {
            assert(self@.surface.canvas.ops =~= old(self)@.surface.canvas.ops + path_draw_ops(
                old(self)@,
                old(self)@.path,
                stroke_paint@,
            ));
            assert(self@.surface.canvas.saved =~= old(self)@.surface.canvas.saved);
            assert(self@ =~= (ContextV {
                surface: SurfaceV {
                    canvas: CanvasV {
                        ops: old(self)@.surface.canvas.ops + path_draw_ops(
                            old(self)@,
                            old(self)@.path,
                            stroke_paint@,
                        ),
                        ..old(self)@.surface.canvas
                    },
                    ..old(self)@.surface
                },
                ..old(self)@
            }));
        }
        Ok(())
    }

    /// Strokes a caller-supplied path.
    pub fn stroke_path(&mut self, path: &Path) -> (r: Result<(), SkError>)
        requires
            old(self)@.wf(),
        ensures
            final(self)@.wf(),
            match spec_resolve_paint(
                old(self)@.paint,
                old(self)@.top(),
                PaintStyle::Stroke,
                old(self)@.surface.canvas.transform,
            ) {
                Err(e) => r == Err::<(), SkError>(e) && final(self)@ == old(self)@,
                Ok(p) => r == Ok::<(), SkError>(()) && final(self)@ == (ContextV {
                    surface: SurfaceV {
                        canvas: CanvasV {
                            ops: old(self)@.surface.canvas.ops + path_draw_ops(
                                old(self)@,
                                path@,
                                p,
                            ),
                            ..old(self)@.surface.canvas
                        },
                        ..old(self)@.surface
                    },
                    ..old(self)@
                }),
            },
    {
        let stroke_paint = match self.resolve_paint(PaintStyle::Stroke) {
            Ok(p) => p,
            Err(e) => {
                return Err(e);
            },
        };
        match self.shadow_paint(&stroke_paint) {
            Some(shadow_paint) => {
                let st = self.top_state();
                let sx = st.shadow_offset_x;
                let sy = st.shadow_offset_y;
                self.surface.save();
                match Self::apply_shadow_offset_matrix(&mut self.surface, sx, sy) {
                    Ok(()) => {},
                    Err(e) => {
                        return Err(e);
                    },
                }
                self.surface.canvas.draw_path(path, &shadow_paint);
                self.surface.restore();
            },
            None => {},
        }
        self.surface.canvas.draw_path(path, &stroke_paint);
        proof {
            assert(self@.surface.canvas.ops =~= old(self)@.surface.canvas.ops + path_draw_ops(
                old(self)@,
                path@,
                stroke_paint@,
            ));
            assert(self@.surface.canvas.saved =~= old(self)@.surface.canvas.saved);
            assert(self@ =~= (ContextV {
                surface: SurfaceV {
                    canvas: CanvasV {
                        ops: old(self)@.surface.canvas.ops + path_draw_ops(
                            old(self)@,
                            path@,
                            stroke_paint@,
                        ),
                        ..old(self)@.surface.canvas
                    },
                    ..old(self)@.surface
                },
                ..old(self)@
            }));
        }
        Ok(())
    }

    /// Tags the fill rule onto the context's current path and installs it
    /// as the backend's active clip.
    pub fn clip(&mut self, fill_rule: FillType)
        ensures
            final(self)@ == (ContextV {
                path: PathV { fill_type: fill_rule, ..old(self)@.path },
                surface: SurfaceV {
                    canvas: CanvasV {
                        clip: old(self)@.surface.canvas.clip.push(
                            PathV { fill_type: fill_rule, ..old(self)@.path },
                        ),
                        ops: old(self)@.surface.canvas.ops.push(
                            CanvasOpV::ClipPath(
                                PathV { fill_type: fill_rule, ..old(self)@.path },
                            ),
                        ),
                        ..old(self)@.surface.canvas
                    },
                    ..old(self)@.surface
                },
                ..old(self)@
            }),
    {
        self.path.set_fill_type(fill_rule);
        self.surface.canvas.set_clip_path(&self.path);
        proof {
            assert(self@ =~= (ContextV {
                path: PathV { fill_type: fill_rule, ..old(self)@.path },
                surface: SurfaceV {
                    canvas: CanvasV {
                        clip: old(self)@.surface.canvas.clip.push(
                            PathV { fill_type: fill_rule, ..old(self)@.path },
                        ),
                        ops: old(self)@.surface.canvas.ops.push(
                            CanvasOpV::ClipPath(
                                PathV { fill_type: fill_rule, ..old(self)@.path },
                            ),
                        ),
                        ..old(self)@.surface.canvas
                    },
                    ..old(self)@.surface
                },
                ..old(self)@
            }));
        }
    }

    /// Tags the fill rule onto a caller-supplied path and installs it as
    /// the backend's active clip; the context's own path is untouched.
    pub fn clip_path(&mut self, path: &mut Path, fill_rule: FillType)
        ensures
            final(path)@ == (PathV { fill_type: fill_rule, ..old(path)@ }),
            final(self)@ == (ContextV {
                surface: SurfaceV {
                    canvas: CanvasV {
                        clip: old(self)@.surface.canvas.clip.push(
                            PathV { fill_type: fill_rule, ..old(path)@ },
                        ),
                        ops: old(self)@.surface.canvas.ops.push(
                            CanvasOpV::ClipPath(PathV { fill_type: fill_rule, ..old(path)@ }),
                        ),
                        ..old(self)@.surface.canvas
                    },
                    ..old(self)@.surface
                },
                ..old(self)@
            }),
    {
        path.set_fill_type(fill_rule);
        self.surface.canvas.set_clip_path(path);
        proof {
            assert(self@ =~= (ContextV {
                surface: SurfaceV {
                    canvas: CanvasV {
                        clip: old(self)@.surface.canvas.clip.push(
                            PathV { fill_type: fill_rule, ..old(path)@ },
                        ),
                        ops: old(self)@.surface.canvas.ops.push(
                            CanvasOpV::ClipPath(PathV { fill_type: fill_rule, ..old(path)@ }),
                        ),
                        ..old(self)@.surface.canvas
                    },
                    ..old(self)@.surface
                },
                ..old(self)@
            }));
        }
    }

    /// Draws a fully transparent rectangle with a fixed source-over paint,
    /// regardless of the configured compositing mode.
    pub fn clear_rect(&mut self, x: Scalar, y: Scalar, w: Scalar, h: Scalar)
        ensures
            final(self)@ == (ContextV {
                surface: SurfaceV {
                    canvas: CanvasV {
                        ops: old(self)@.surface.canvas.ops.push(
                            CanvasOpV::DrawRect(x, y, w, h, clear_rect_paint()),
                        ),
                        ..old(self)@.surface.canvas
                    },
                    ..old(self)@.surface
                },
                ..old(self)@
            }),
    {
        let mut paint = Paint::new();
        paint.set_style(PaintStyle::Fill);
        paint.set_color(0, 0, 0, 0);
        paint.set_stroke_miter(Scalar { bits: 0x4120_0000 });
        paint.set_blend_mode(BlendMode::SourceOver);
        self.surface.draw_rect(x, y, w, h, &paint);
        proof {
            assert(self@ =~= (ContextV {
                surface: SurfaceV {
                    canvas: CanvasV {
                        ops: old(self)@.surface.canvas.ops.push(
                            CanvasOpV::DrawRect(x, y, w, h, clear_rect_paint()),
                        ),
                        ..old(self)@.surface.canvas
                    },
                    ..old(self)@.surface
                },
                ..old(self)@
            }));
        }
    }
}

} // verus!
